//! Rules shared by the layers that hand the engine's matrices to foreign
//! callers through flat buffers: which dimensions are accepted, when an
//! output may be copied out, and how an error message is cut to fit a
//! caller's buffer.

use vstd::prelude::*;
use vstd::string::*;

use crate::text::{decimal, push_decimal};

verus! {

/// Why an output matrix cannot be copied into a caller's buffer. These are
/// the boundary's own failures, distinct from the input validation errors.
#[derive(Debug, Clone, Copy, PartialEq, Eq, Structural)]
pub enum ReadError {
    /// No computation has succeeded yet, so the output does not exist.
    NotComputed,
    /// The buffer holds `capacity` elements but the output has `needed`.
    BufferTooSmall { capacity: i32, needed: usize },
}

/// The outcome of copying an output of `len` elements (`None` when not yet
/// computed) into a buffer of `capacity` elements.
pub open spec fn read_outcome(len: Option<usize>, capacity: i32) -> Result<usize, ReadError> {
    match len {
        None => Err(ReadError::NotComputed),
        Some(n) => if (capacity as int) < (n as int) {
            Err(ReadError::BufferTooSmall { capacity, needed: n })
        } else {
            Ok(n)
        },
    }
}

/// Decides whether an output of `len` elements, `None` when it has not been
/// computed, may be copied into a buffer of `capacity` elements; on success
/// returns the number of elements to copy. A negative capacity is refused.
pub fn check_output_buffer(len: Option<usize>, capacity: i32) -> (r: Result<usize, ReadError>)
    ensures
        r == read_outcome(len, capacity),
{
    match len {
        None => Err(ReadError::NotComputed),
        Some(n) => {
            if capacity < 0 || (capacity as usize) < n {
                Err(ReadError::BufferTooSmall { capacity, needed: n })
            } else {
                Ok(n)
            }
        },
    }
}

/// The decimal representation of a signed number.
pub open spec fn signed_decimal(n: i32) -> Seq<char> {
    if n < 0 {
        "-"@ + decimal((-n) as nat)
    } else {
        decimal(n as nat)
    }
}

fn push_signed(s: &mut String, n: i32)
    ensures
        final(s)@ == old(s)@ + signed_decimal(n),
{
    if n < 0 {
        s.append("-");
        let m: usize = (-(n as i64)) as usize;
        push_decimal(s, m);
        assert(final(s)@ =~= old(s)@ + signed_decimal(n));
    } else {
        push_decimal(s, n as usize);
    }
}

/// The text of a read error for the output called `name`.
pub open spec fn read_message_text(e: ReadError, name: Seq<char>) -> Seq<char> {
    match e {
        ReadError::NotComputed => name + ": not yet computed"@,
        ReadError::BufferTooSmall { capacity, needed } => name + ": buffer too small ("@
            + signed_decimal(capacity) + " < "@ + decimal(needed as nat) + ")"@,
    }
}

impl ReadError {
    /// Describes the error for the output called `name`.
    pub fn message(&self, name: &str) -> (r: String)
        ensures
            r@ == read_message_text(*self, name@),
    {
        let mut s = String::from_str(name);
        match *self {
            ReadError::NotComputed => {
                s.append(": not yet computed");
            },
            ReadError::BufferTooSmall { capacity, needed } => {
                s.append(": buffer too small (");
                push_signed(&mut s, capacity);
                s.append(" < ");
                push_decimal(&mut s, needed);
                s.append(")");
            },
        }
        s
    }
}

/// Element counts of the outstanding, profile and rate buffers described by
/// their row and column counts: `Some` exactly when every count is positive
/// and each product fits in a `usize`.
pub fn buffer_lengths(
    outs_rows: i32,
    prof_rows: i32,
    prof_cols: i32,
    rate_rows: i32,
    rate_cols: i32,
) -> (r: Option<(usize, usize, usize)>)
    ensures
        r is Some <==> {
            &&& outs_rows > 0
            &&& prof_rows > 0
            &&& prof_cols > 0
            &&& rate_rows > 0
            &&& rate_cols > 0
            &&& prof_rows * prof_cols <= usize::MAX
            &&& rate_rows * rate_cols <= usize::MAX
        },
        r matches Some(l) ==> {
            &&& l.0 == outs_rows
            &&& l.1 == prof_rows * prof_cols
            &&& l.2 == rate_rows * rate_cols
        },
{
    if outs_rows <= 0 || prof_rows <= 0 || prof_cols <= 0 || rate_rows <= 0 || rate_cols <= 0 {
        return None;
    }
    let prof_len = (prof_rows as usize).checked_mul(prof_cols as usize);
    let rate_len = (rate_rows as usize).checked_mul(rate_cols as usize);
    match (prof_len, rate_len) {
        (Some(p), Some(q)) => Some((outs_rows as usize, p, q)),
        _ => None,
    }
}

/// What is written into a caller's text buffer of `buf_len` bytes: as much of
/// `msg` as fits before a terminating zero byte.
pub open spec fn terminated_prefix(msg: Seq<u8>, buf_len: i32) -> Seq<u8> {
    let room = (buf_len - 1) as int;
    let n = if msg.len() <= room { msg.len() as int } else { room };
    msg.subrange(0, n).push(0u8)
}

/// Prepares `msg` for a caller's text buffer of `buf_len` bytes. `None` when
/// the buffer has no room even for the terminating zero; otherwise the bytes
/// to write, the longest prefix of `msg` that fits followed by a zero byte,
/// and whether the whole message fitted.
pub fn c_message(msg: &[u8], buf_len: i32) -> (r: Option<(Vec<u8>, bool)>)
    ensures
        r is Some <==> buf_len > 0,
        r matches Some(p) ==> {
            &&& p.0@ == terminated_prefix(msg@, buf_len)
            &&& p.1 == (msg@.len() < buf_len)
        },
{
    if buf_len <= 0 {
        return None;
    }
    let room = (buf_len - 1) as usize;
    let n = if msg.len() <= room { msg.len() } else { room };
    let mut out: Vec<u8> = Vec::new();
    let mut i: usize = 0;
    while i < n
        invariant
            n <= msg@.len(),
            i <= n,
            out@ =~= msg@.subrange(0, i as int),
        decreases n - i,
    {
        out.push(msg[i]);
        i += 1;
    }
    out.push(0u8);
    Some((out, msg.len() <= room))
}

/// Records `msg` as the most recent failure in `slot`, replacing what was there.
pub fn set_last_error(slot: &mut String, msg: String)
    ensures
        final(slot)@ == msg@,
{
    *slot = msg;
}

} // verus!

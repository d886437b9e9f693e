use vstd::prelude::*;

verus! {

/// Method used for the computation.
#[derive(Debug, Clone, Copy, PartialEq, Eq, Structural)]
pub enum ComputeMethod {
    /// Outputs derived from the point-in-time outstanding of each cohort.
    Stock,
    /// Outputs derived from new production aggregated across cohorts.
    Flux,
}

/// Whether two strings hold the same characters.
fn same_text(a: &str, b: &str) -> (r: bool)
    ensures
        r == (a@ == b@),
{
    let n = a.unicode_len();
    if n != b.unicode_len() {
        return false;
    }
    let mut i: usize = 0;
    while i < n
        invariant
            n == a@.len(),
            n == b@.len(),
            i <= n,
            a@.subrange(0, i as int) == b@.subrange(0, i as int),
        decreases n - i,
    {
        if a.get_char(i) != b.get_char(i) {
            assert(a@[i as int] != b@[i as int]);
            return false;
        }
        assert(a@.subrange(0, i + 1) =~= a@.subrange(0, i as int).push(a@[i as int]));
        assert(b@.subrange(0, i + 1) =~= b@.subrange(0, i as int).push(b@[i as int]));
        i += 1;
    }
    assert(a@ =~= a@.subrange(0, n as int));
    assert(b@ =~= b@.subrange(0, n as int));
    true
}

/// The method that a name selects: `"stock"` or `"flux"`.
pub open spec fn method_named(name: Seq<char>) -> Option<ComputeMethod> {
    if name == "stock"@ {
        Some(ComputeMethod::Stock)
    } else if name == "flux"@ {
        Some(ComputeMethod::Flux)
    } else {
        None
    }
}

/// The method that a numeric code selects: 0 for stock, 1 for flux.
pub open spec fn method_coded(code: i32) -> Option<ComputeMethod> {
    if code == 0 {
        Some(ComputeMethod::Stock)
    } else if code == 1 {
        Some(ComputeMethod::Flux)
    } else {
        None
    }
}

impl ComputeMethod {
    /// Selects a method by name, `"stock"` or `"flux"`; any other name selects none.
    pub fn from_name(name: &str) -> (r: Option<ComputeMethod>)
        ensures
            r == method_named(name@),
    {
        if same_text(name, "stock") {
            Some(ComputeMethod::Stock)
        } else if same_text(name, "flux") {
            Some(ComputeMethod::Flux)
        } else {
            None
        }
    }

    /// Selects a method by code, 0 for stock and 1 for flux; any other code selects none.
    pub fn from_code(code: i32) -> (r: Option<ComputeMethod>)
        ensures
            r == method_coded(code),
    {
        if code == 0 {
            Some(ComputeMethod::Stock)
        } else if code == 1 {
            Some(ComputeMethod::Flux)
        } else {
            None
        }
    }
}

} // verus!

//! The route table as it is read once at startup.
use vstd::prelude::*;

verus! {

/// One upstream target: where it is, how many attempts it gets, and how long
/// each attempt may take.
pub struct EndpointConfig {
    pub address: String,
    pub retries: usize,
    pub timeout_secs: u64,
}

/// A group of methods served by an ordered list of endpoints; the first
/// endpoint listed is tried first.
pub struct MethodEndpointCollection {
    pub methods: Vec<String>,
    pub endpoints: Vec<EndpointConfig>,
}

/// All routes, in the order in which they are matched.
pub struct RpcConfig {
    pub routes: Vec<MethodEndpointCollection>,
}

/// The method names of a route, as sequences.
pub open spec fn names(methods: Seq<String>) -> Seq<Seq<char>> {
    methods.map_values(|s: String| s@)
}

/// Whether `methods` lists `method`.
pub(crate) fn lists_method(methods: &Vec<String>, method: &String) -> (r: bool)
    ensures
        r == names(methods@).contains(method@),
{
    let mut j: usize = 0;
    while j < methods.len()
        invariant
            0 <= j <= methods@.len(),
            forall|k: int| 0 <= k < j ==> methods@[k]@ != method@,
        decreases methods@.len() - j,
    {
        if methods[j] == *method {
            assert(names(methods@)[j as int] == method@);
            return true;
        }
        j = j + 1;
    }
    assert(!names(methods@).contains(method@)) by {
        assert forall|k: int| 0 <= k < names(methods@).len() implies names(methods@)[k] != method@ by {
            assert(names(methods@)[k] == methods@[k]@);
        }
    }
    false
}

impl RpcConfig {
    /// Whether method number `k` of route number `j` is already listed by an
    /// earlier route, which then serves it in place of route `j`.
    pub fn is_shadowed(&self, j: usize, k: usize) -> (r: bool)
        requires
            j < self.routes@.len(),
            k < self.routes@[j as int].methods@.len(),
        ensures
            r == exists|i: int| 0 <= i < j && #[trigger] names(self.routes@[i].methods@).contains(self.routes@[j as int].methods@[k as int]@),
    {
        let method = &self.routes[j].methods[k];
        let mut i: usize = 0;
        while i < j
            invariant
                0 <= i <= j < self.routes@.len(),
                *method == self.routes@[j as int].methods@[k as int],
                forall|l: int| 0 <= l < i ==> !names(self.routes@[l].methods@).contains(method@),
            decreases j - i,
        {
            if lists_method(&self.routes[i].methods, method) {
                return true;
            }
            i = i + 1;
        }
        false
    }
}

} // verus!

//! Parameters of a sampler chain.
use vstd::prelude::*;

verus! {

/// The parameters with which a native sampler chain is made.
pub struct LlamaSamplerChainParams {
    no_perf: bool,
}

impl View for LlamaSamplerChainParams {
    /// Whether performance timings are off.
    type V = bool;

    closed spec fn view(&self) -> bool {
        self.no_perf
    }
}

impl LlamaSamplerChainParams {
    /// The parameters that the native library fills in by default, given what it
    /// fills in.
    pub fn from_native(no_perf: bool) -> (params: Self)
        ensures
            params@ == no_perf,
    {
        LlamaSamplerChainParams { no_perf }
    }

    /// The parameters with performance timings switched off or on.
    pub closed spec fn switched(self, no_perf: bool) -> Self {
        LlamaSamplerChainParams { no_perf, ..self }
    }

    /// Switch performance timings off or on. What is returned is the parameters
    /// themselves, so that calls can be chained.
    pub fn with_no_perf(&mut self, no_perf: bool) -> (params: &mut Self)
        ensures
            *params == old(self).switched(no_perf),
            (*params)@ == no_perf,
            *final(self) == *final(params),
    {
        self.no_perf = no_perf;
        self
    }

    /// Whether performance timings are off.
    pub fn no_perf(&self) -> (no_perf: bool)
        ensures
            no_perf == self@,
    {
        self.no_perf
    }

    /// The parameters as debug output shows them: by the name of their type alone.
    pub fn debug_text(&self) -> (text: String)
        ensures
            text@ == "LlamaSamplerChainParams"@,
    {
        String::from("LlamaSamplerChainParams")
    }
}

/// What was switched last is what is read back, whatever came before it.
pub proof fn last_switch_counts(params: LlamaSamplerChainParams, first: bool, last: bool)
    ensures
        params.switched(last)@ == last,
        params.switched(first).switched(last) == params.switched(last),
{
}

} // verus!

//! The web GPU canvas tone-mapping modes and their string names.

use vstd::prelude::*;

verus! {

/// How a canvas maps colours outside the standard range.
#[derive(Debug, Clone, Copy, PartialEq, Eq, Structural)]
pub enum GpuCanvasToneMappingMode {
    Standard,
    Extended,
}

/// Whether two strings hold the same characters.
fn same_text(a: &str, b: &str) -> (r: bool)
    ensures
        r == (a@ == b@),
{
    let n = a.unicode_len();
    if n != b.unicode_len() {
        return false;
    }
    let mut i: usize = 0;
    while i < n
        invariant
            n == a@.len(),
            n == b@.len(),
            i <= n,
            forall|j: int| 0 <= j < i ==> a@[j] == b@[j],
        decreases n - i,
    {
        if a.get_char(i) != b.get_char(i) {
            return false;
        }
        i = i + 1;
    }
    assert(a@ =~= b@);
    true
}

impl GpuCanvasToneMappingMode {
    /// The mode's name: `standard` or `extended`.
    pub open spec fn name(self) -> Seq<char> {
        match self {
            GpuCanvasToneMappingMode::Standard => "standard"@,
            GpuCanvasToneMappingMode::Extended => "extended"@,
        }
    }

    /// The mode that a name stands for, if any.
    pub open spec fn from_name(s: Seq<char>) -> Option<GpuCanvasToneMappingMode> {
        if s == "standard"@ {
            Some(GpuCanvasToneMappingMode::Standard)
        } else if s == "extended"@ {
            Some(GpuCanvasToneMappingMode::Extended)
        } else {
            None
        }
    }

    /// Returns the mode's name.
    pub fn to_str(&self) -> (r: &'static str)
        ensures
            r@ == self.name(),
    {
        match self {
            GpuCanvasToneMappingMode::Standard => "standard",
            GpuCanvasToneMappingMode::Extended => "extended",
        }
    }

    /// Returns the mode that `s` names, or `None` when it names none.
    pub fn from_str(s: &str) -> (r: Option<GpuCanvasToneMappingMode>)
        ensures
            r == Self::from_name(s@),
    {
        if same_text(s, "standard") {
            Some(GpuCanvasToneMappingMode::Standard)
        } else if same_text(s, "extended") {
            Some(GpuCanvasToneMappingMode::Extended)
        } else {
            None
        }
    }

    /// Reading a mode's name back gives the mode.
    pub proof fn lemma_name_round_trip(self)
        ensures
            Self::from_name(self.name()) == Some(self),
    {
        reveal_strlit("standard");
        reveal_strlit("extended");
        assert("standard"@[0] != "extended"@[0]);
    }
}

} // verus!

//! The settings of a flock that a user can change, under the names they go
//! by in a query string, and the query string that records a choice of them.

use vstd::prelude::*;
use vstd::string::StringExecFns;

verus! {

/// A setting that can be changed while the simulation runs.
#[derive(Clone, Copy, Debug, PartialEq, Eq, Structural)]
pub enum Setting {
    AlignRadius,
    CohesionRadius,
    SeperationRadius,
    AngstRadius,
    NrOfBoids,
    MaxSpeed,
    MaxSteer,
    AlignFactor,
    CohesionFactor,
    SeperationFactor,
    AngstFactor,
}

impl Setting {
    /// The name of the setting as a sequence of characters.
    pub open spec fn name_chars(self) -> Seq<char> {
        match self {
            Setting::AlignRadius => "align-radius"@,
            Setting::CohesionRadius => "cohesion-radius"@,
            Setting::SeperationRadius => "seperation-radius"@,
            Setting::AngstRadius => "angst-radius"@,
            Setting::NrOfBoids => "nr-of-boids"@,
            Setting::MaxSpeed => "max-speed"@,
            Setting::MaxSteer => "max-steer"@,
            Setting::AlignFactor => "align-factor"@,
            Setting::CohesionFactor => "cohesion-factor"@,
            Setting::SeperationFactor => "seperation-factor"@,
            Setting::AngstFactor => "angst-factor"@,
        }
    }

    /// The name under which the setting appears in a query string.
    pub fn name(&self) -> (text: &'static str)
        ensures
            text@ == self.name_chars(),
    {
        match self {
            Setting::AlignRadius => "align-radius",
            Setting::CohesionRadius => "cohesion-radius",
            Setting::SeperationRadius => "seperation-radius",
            Setting::AngstRadius => "angst-radius",
            Setting::NrOfBoids => "nr-of-boids",
            Setting::MaxSpeed => "max-speed",
            Setting::MaxSteer => "max-steer",
            Setting::AlignFactor => "align-factor",
            Setting::CohesionFactor => "cohesion-factor",
            Setting::SeperationFactor => "seperation-factor",
            Setting::AngstFactor => "angst-factor",
        }
    }
}

/// One pair of a query string: the name, `=`, the value, and a closing `&`.
pub open spec fn pair_chars(setting: Setting, value: Seq<char>) -> Seq<char> {
    setting.name_chars() + seq!['='] + value + seq!['&']
}

/// The pairs of `changed`, one after the other.
pub open spec fn pairs_chars(changed: Seq<(Setting, String)>) -> Seq<char>
    decreases changed.len(),
{
    if changed.len() == 0 {
        Seq::empty()
    } else {
        pairs_chars(changed.drop_last()) + pair_chars(changed.last().0, changed.last().1@)
    }
}

/// Writes the query string that records `changed`: a `?`, then for each
/// entry, in the order given, its name, `=`, its value and `&`.
///
/// With nothing changed the result is the lone `?`.
pub fn to_url_suffix(changed: &Vec<(Setting, String)>) -> (suffix: String)
    ensures
        suffix@ == seq!['?'] + pairs_chars(changed@),
{
    proof {
        reveal_strlit("?");
    }
    let mut suffix = String::from_str("?");
    assert(suffix@ =~= seq!['?'] + pairs_chars(changed@.take(0)));
    let mut idx: usize = 0;
    while idx < changed.len()
        invariant
            idx <= changed@.len(),
            suffix@ == seq!['?'] + pairs_chars(changed@.take(idx as int)),
        decreases changed@.len() - idx,
    {
        let ghost before = suffix@;
        suffix.append(changed[idx].0.name());
        suffix.append("=");
        suffix.append(changed[idx].1.as_str());
        suffix.append("&");
        proof {
            reveal_strlit("=");
            reveal_strlit("&");
            let upto = changed@.take(idx as int + 1);
            assert(upto.drop_last() =~= changed@.take(idx as int));
            assert("="@ =~= seq!['=']);
            assert("&"@ =~= seq!['&']);
            assert(suffix@ =~= seq!['?'] + pairs_chars(upto));
        }
        idx = idx + 1;
    }
    assert(changed@.take(idx as int) =~= changed@);
    suffix
}

/// No two settings share a name, so a name in a query string stands for
/// one setting only.
pub proof fn lemma_names_differ(a: Setting, b: Setting)
    requires
        a.name_chars() == b.name_chars(),
    ensures
        a == b,
{
    reveal_strlit("align-radius");
    reveal_strlit("cohesion-radius");
    reveal_strlit("seperation-radius");
    reveal_strlit("angst-radius");
    reveal_strlit("nr-of-boids");
    reveal_strlit("max-speed");
    reveal_strlit("max-steer");
    reveal_strlit("align-factor");
    reveal_strlit("cohesion-factor");
    reveal_strlit("seperation-factor");
    reveal_strlit("angst-factor");
    if a != b {
        let x = a.name_chars();
        let y = b.name_chars();
        assert(x.len() != y.len() || x[1] != y[1] || x[5] != y[5] || x[6] != y[6] || x[9] != y[9]
            || x[11] != y[11]);
    }
}

} // verus!

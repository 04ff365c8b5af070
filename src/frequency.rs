//! The frequency policy a habit was created with.

use vstd::prelude::*;

verus! {

/// Which days a habit is expected on.
#[allow(non_camel_case_types)]
#[derive(Clone, Copy, Debug, PartialEq, Eq, Structural)]
pub enum StreakFrequency {
    /// Every calendar day.
    alldays,
    /// Monday to Friday: a gap over a weekend does not break the streak.
    weekdays,
}

/// A frequency label that names no policy.
#[derive(Debug)]
pub struct InvalidFrequency {
    /// The label as it was given.
    pub label: String,
}

impl StreakFrequency {
    /// The label of the policy, as it is stored and parsed.
    pub open spec fn label_of(self) -> Seq<char> {
        match self {
            StreakFrequency::alldays => "alldays"@,
            StreakFrequency::weekdays => "weekdays"@,
        }
    }

    /// Reads a policy from its label: exactly `alldays` or `weekdays`.
    pub fn from_str(input: &str) -> (r: Result<StreakFrequency, InvalidFrequency>)
        ensures
            input@ == "alldays"@ ==> (r matches Ok(f) && f == StreakFrequency::alldays),
            input@ == "weekdays"@ ==> (r matches Ok(f) && f == StreakFrequency::weekdays),
            r matches Ok(f) ==> f.label_of() == input@,
            r is Err <==> (input@ != "alldays"@ && input@ != "weekdays"@),
            r matches Err(e) ==> e.label@ == input@,
    {
        proof {
            reveal_strlit("alldays");
            reveal_strlit("weekdays");
            assert("alldays"@[0] != "weekdays"@[0]);
        }
        let given = input.to_owned();
        if given == "alldays".to_owned() {
            Ok(StreakFrequency::alldays)
        } else if given == "weekdays".to_owned() {
            Ok(StreakFrequency::weekdays)
        } else {
            Err(InvalidFrequency { label: given })
        }
    }

    /// The label of the policy.
    pub fn as_str(&self) -> (r: &'static str)
        ensures
            r@ == self.label_of(),
    {
        match self {
            StreakFrequency::alldays => "alldays",
            StreakFrequency::weekdays => "weekdays",
        }
    }
}

} // verus!

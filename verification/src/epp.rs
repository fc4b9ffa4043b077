//! CPU energy-performance preferences: the profiles the driver knows, and
//! the parts of applying one to every core that need no file access.

use vstd::prelude::*;
use vstd::string::*;
use crate::text::{lowercase_of, str_eq, to_lowercase};

verus! {

/// A profile that the CPU driver accepts.
#[derive(Debug, Clone, Copy, PartialEq, Eq, Structural)]
pub enum EppProfile {
    Performance,
    BalancePerformance,
    Default,
    BalancePower,
    Power,
}

impl EppProfile {
    /// The name under which the driver knows the profile.
    pub open spec fn name(self) -> Seq<char> {
        match self {
            EppProfile::Performance => "performance"@,
            EppProfile::BalancePerformance => "balance_performance"@,
            EppProfile::Default => "default"@,
            EppProfile::BalancePower => "balance_power"@,
            EppProfile::Power => "power"@,
        }
    }

    /// The profile with the given name, if there is one. Names are matched
    /// as they stand.
    pub open spec fn named(name: Seq<char>) -> Option<EppProfile> {
        if name == "performance"@ {
            Some(EppProfile::Performance)
        } else if name == "balance_performance"@ {
            Some(EppProfile::BalancePerformance)
        } else if name == "default"@ {
            Some(EppProfile::Default)
        } else if name == "balance_power"@ {
            Some(EppProfile::BalancePower)
        } else if name == "power"@ {
            Some(EppProfile::Power)
        } else {
            None
        }
    }

    /// The name under which the driver knows the profile.
    pub fn as_str(&self) -> (name: &'static str)
        ensures
            name@ == self.name(),
    {
        match self {
            EppProfile::Performance => "performance",
            EppProfile::BalancePerformance => "balance_performance",
            EppProfile::Default => "default",
            EppProfile::BalancePower => "balance_power",
            EppProfile::Power => "power",
        }
    }

    /// Finds the profile with exactly this name.
    pub fn from_lowercase(name: &str) -> (profile: Option<Self>)
        ensures
            profile == EppProfile::named(name@),
    {
        if str_eq(name, "performance") {
            Some(EppProfile::Performance)
        } else if str_eq(name, "balance_performance") {
            Some(EppProfile::BalancePerformance)
        } else if str_eq(name, "default") {
            Some(EppProfile::Default)
        } else if str_eq(name, "balance_power") {
            Some(EppProfile::BalancePower)
        } else if str_eq(name, "power") {
            Some(EppProfile::Power)
        } else {
            None
        }
    }

    /// Finds the profile that `s` names, whatever the case of its letters.
    pub fn parse(s: &str) -> (profile: Option<Self>)
        ensures
            profile == EppProfile::named(lowercase_of(s@)),
    {
        let lower = to_lowercase(s);
        EppProfile::from_lowercase(lower.as_str())
    }
}

/// Every profile is found again under its own name.
pub proof fn profile_names_round_trip(profile: EppProfile)
    ensures
        EppProfile::named(profile.name()) == Some(profile),
{
    reveal_strlit("performance");
    reveal_strlit("balance_performance");
    reveal_strlit("default");
    reveal_strlit("balance_power");
    reveal_strlit("power");
    assert("balance_power"@.len() != "default"@.len());
    assert("power"@.len() != "performance"@.len());
    assert("power"@.len() != "balance_performance"@.len());
    assert("power"@.len() != "balance_power"@.len());
}

impl std::str::FromStr for EppProfile {
    type Err = ();

    /// Finds the profile that `s` names, whatever the case of its letters;
    /// a text that names none is an error.
    fn from_str(s: &str) -> (result: Result<Self, ()>)
        ensures
            result == (match EppProfile::named(lowercase_of(s@)) {
                Some(profile) => Ok::<EppProfile, ()>(profile),
                None => Err::<EppProfile, ()>(()),
            }),
    {
        match EppProfile::parse(s) {
            Some(profile) => Ok(profile),
            None => Err(()),
        }
    }
}

/// How writing a profile to the cores went as a whole.
#[derive(Debug, Clone, Copy, PartialEq, Eq, Structural)]
pub enum EppOutcome {
    /// At least one core took the profile.
    Applied { cores: u64 },
    /// Control files were found, and every write was refused.
    Denied { cores: u64 },
    /// No core offers the control file.
    Unsupported,
}

/// `name` is `cpu` followed by decimal digits only.
pub open spec fn is_core_name(name: Seq<char>) -> bool {
    &&& name.len() >= 3
    &&& name[0] == 'c'
    &&& name[1] == 'p'
    &&& name[2] == 'u'
    &&& forall|i: int| 3 <= i < name.len() ==> '0' <= #[trigger] name[i] <= '9'
}

/// Applies a profile to every core.
pub struct RyzenEPPManager;

impl RyzenEPPManager {
    /// The profile to write for a requested mode. A mode that names no
    /// profile is ignored: nothing is to be written.
    pub fn set_epp(mode: &str) -> (profile: Option<EppProfile>)
        ensures
            profile == EppProfile::named(lowercase_of(mode@)),
    {
        EppProfile::parse(mode)
    }

    /// Whether an entry of the CPU directory stands for one core.
    pub fn is_core_dir(file_name: &str) -> (is_core: bool)
        ensures
            is_core == is_core_name(file_name@),
    {
        let n = file_name.unicode_len();
        if n < 3 {
            return false;
        }
        if file_name.get_char(0) != 'c' || file_name.get_char(1) != 'p' || file_name.get_char(2)
            != 'u' {
            return false;
        }
        let mut i: usize = 3;
        while i < n
            invariant
                n == file_name@.len(),
                3 <= i <= n,
                forall|j: int| 3 <= j < i ==> '0' <= #[trigger] file_name@[j] <= '9',
            decreases n - i,
        {
            let c = file_name.get_char(i);
            if c < '0' || c > '9' {
                return false;
            }
            i = i + 1;
        }
        true
    }

    /// Sums up the writes: applied if any core took the profile, denied if
    /// none did and some refused, unsupported if there was nothing to write
    /// to.
    pub fn summarize(success_count: u64, fail_count: u64) -> (outcome: EppOutcome)
        ensures
            outcome == (if success_count > 0 {
                EppOutcome::Applied { cores: success_count }
            } else if fail_count > 0 {
                EppOutcome::Denied { cores: fail_count }
            } else {
                EppOutcome::Unsupported
            }),
    {
        if success_count > 0 {
            EppOutcome::Applied { cores: success_count }
        } else if fail_count > 0 {
            EppOutcome::Denied { cores: fail_count }
        } else {
            EppOutcome::Unsupported
        }
    }
}

} // verus!

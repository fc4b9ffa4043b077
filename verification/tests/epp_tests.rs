use nvprime::epp::{EppOutcome, EppProfile, RyzenEPPManager};
use std::str::FromStr;

#[test]
fn test_epp_parsing() {
    assert_eq!(
        EppProfile::from_str("performance"),
        Ok(EppProfile::Performance)
    );
    assert_eq!(
        EppProfile::from_str("balance_performance"),
        Ok(EppProfile::BalancePerformance)
    );
    assert_eq!(EppProfile::from_str("default"), Ok(EppProfile::Default));
    assert_eq!(
        EppProfile::from_str("balance_power"),
        Ok(EppProfile::BalancePower)
    );
    assert_eq!(EppProfile::from_str("power"), Ok(EppProfile::Power));

    // Test case insensitivity
    assert_eq!(
        EppProfile::from_str("PERFORMANCE"),
        Ok(EppProfile::Performance)
    );

    // Test invalid
    assert_eq!(EppProfile::from_str("invalid_mode"), Err(()));
}

#[test]
fn test_epp_as_str() {
    assert_eq!(EppProfile::Performance.as_str(), "performance");
    assert_eq!(
        EppProfile::BalancePerformance.as_str(),
        "balance_performance"
    );
}

#[test]
fn test_epp_as_str_all_profiles() {
    assert_eq!(EppProfile::Default.as_str(), "default");
    assert_eq!(EppProfile::BalancePower.as_str(), "balance_power");
    assert_eq!(EppProfile::Power.as_str(), "power");
}

#[test]
fn test_epp_names_round_trip() {
    let all = [
        EppProfile::Performance,
        EppProfile::BalancePerformance,
        EppProfile::Default,
        EppProfile::BalancePower,
        EppProfile::Power,
    ];
    for profile in all {
        assert_eq!(EppProfile::from_lowercase(profile.as_str()), Some(profile));
        assert_eq!(EppProfile::parse(profile.as_str()), Some(profile));
    }
}

#[test]
fn test_epp_parse_mixed_case() {
    assert_eq!(EppProfile::parse("Balance_Power"), Some(EppProfile::BalancePower));
    assert_eq!(EppProfile::parse("POWER"), Some(EppProfile::Power));
    assert_eq!(EppProfile::parse(""), None);
    assert_eq!(EppProfile::parse("performance "), None);
}

#[test]
fn test_epp_from_lowercase_is_exact() {
    // Without the lowering step an upper-case name is no profile.
    assert_eq!(EppProfile::from_lowercase("PERFORMANCE"), None);
    assert_eq!(EppProfile::from_lowercase("performance"), Some(EppProfile::Performance));
}

#[test]
fn test_set_epp_picks_profile_or_ignores() {
    assert_eq!(RyzenEPPManager::set_epp("Performance"), Some(EppProfile::Performance));
    assert_eq!(RyzenEPPManager::set_epp("turbo"), None);
}

#[test]
fn test_is_core_dir() {
    assert!(RyzenEPPManager::is_core_dir("cpu0"));
    assert!(RyzenEPPManager::is_core_dir("cpu15"));
    assert!(RyzenEPPManager::is_core_dir("cpu"));
    assert!(!RyzenEPPManager::is_core_dir("cpufreq"));
    assert!(!RyzenEPPManager::is_core_dir("cpuidle"));
    assert!(!RyzenEPPManager::is_core_dir("cp"));
    assert!(!RyzenEPPManager::is_core_dir(""));
    assert!(!RyzenEPPManager::is_core_dir("xcpu1"));
    assert!(!RyzenEPPManager::is_core_dir("cpu1a"));
}

#[test]
fn test_epp_summarize() {
    assert_eq!(RyzenEPPManager::summarize(4, 0), EppOutcome::Applied { cores: 4 });
    assert_eq!(RyzenEPPManager::summarize(1, 7), EppOutcome::Applied { cores: 1 });
    assert_eq!(RyzenEPPManager::summarize(0, 8), EppOutcome::Denied { cores: 8 });
    assert_eq!(RyzenEPPManager::summarize(0, 0), EppOutcome::Unsupported);
}

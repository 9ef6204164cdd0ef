use cpuid::IdentifyPhase;
use cpuid::presence_from_status;
use cpuid::step_on_status;

#[test]
fn test_failed_acquisition_is_terminal() {
    let after = step_on_status(IdentifyPhase::Start, 5);
    assert_eq!(after, IdentifyPhase::RawAcqFailed);
    assert!(after.is_failure());
    assert_eq!(step_on_status(after, 0), IdentifyPhase::RawAcqFailed);
    assert_eq!(step_on_status(after, 7), IdentifyPhase::RawAcqFailed);
}

#[test]
fn test_failed_identification_is_terminal() {
    let acquired = step_on_status(IdentifyPhase::Start, 0);
    let after = step_on_status(acquired, -3);
    assert_eq!(after, IdentifyPhase::IdentifyFailed);
    assert!(after.is_failure());
    assert_eq!(step_on_status(after, 0), IdentifyPhase::IdentifyFailed);
}

#[test]
fn test_successful_run_reaches_identified() {
    let acquired = step_on_status(IdentifyPhase::Start, 0);
    assert_eq!(acquired, IdentifyPhase::RawAcquired);
    assert!(!acquired.is_failure());
    let identified = step_on_status(acquired, 0);
    assert_eq!(identified, IdentifyPhase::Identified);
    assert!(!identified.is_failure());
}

#[test]
fn test_converted_is_absorbing() {
    assert_eq!(step_on_status(IdentifyPhase::Converted, 1), IdentifyPhase::Converted);
    assert!(!IdentifyPhase::Converted.is_failure());
}

#[test]
fn test_presence_from_status() {
    assert!(presence_from_status(1));
    assert!(!presence_from_status(0));
    assert!(!presence_from_status(2));
    assert!(!presence_from_status(-1));
}

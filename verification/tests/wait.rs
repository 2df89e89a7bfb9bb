use ghost::tools::wait::{
    check_condition, delay_answer, ghost_wait_check, wait_check, wait_step, Observation, WaitCheck,
    WaitError, WaitStep,
};
use serde_json::Value;

fn observed(url: Option<&str>, title: Option<&str>, element_found: Option<bool>) -> Observation {
    Observation {
        url: url.map(|s| s.to_string()),
        title: title.map(|s| s.to_string()),
        element_found,
    }
}

#[test]
fn wait_requires_a_condition() {
    let err = ghost_wait_check(None, None).expect_err("condition is required");
    assert_eq!(err, WaitError::ConditionRequired);
    assert!(err.message().contains("'condition' required"));
}

#[test]
fn check_condition_unknown_condition_is_never_met() {
    let check = wait_check("bogusCondition", None);
    assert!(matches!(check, WaitCheck::Never));
    assert!(!check_condition(&check, &observed(None, None, None), &None, &None));
}

#[test]
fn wait_delay_is_a_one_shot_sleep_that_reports_met() {
    assert!(matches!(ghost_wait_check(Some("delay"), None).unwrap(), WaitCheck::Delay));
    let out: Value = serde_json::from_str(&delay_answer(0)).unwrap();
    assert_eq!(out["condition_met"], Value::from(true));
    assert_eq!(out["condition"], Value::from("delay"));
    assert_eq!(out["polls"], Value::from(0));
}

#[test]
fn url_and_title_conditions() {
    let c = wait_check("urlContains", Some("example"));
    assert!(check_condition(&c, &observed(Some("https://example.com"), None, None), &None, &None));
    assert!(!check_condition(&c, &observed(None, None, None), &None, &None));
    let any = wait_check("urlContains", None);
    assert!(check_condition(&any, &observed(None, None, None), &None, &None));
    let t = wait_check("titleContains", Some("Inbox"));
    assert!(check_condition(&t, &observed(None, Some("Inbox (3)"), None), &None, &None));
    let changed = wait_check("titleChanged", None);
    let before = Some("A".to_string());
    assert!(!check_condition(&changed, &observed(None, Some("A"), None), &None, &before));
    assert!(check_condition(&changed, &observed(None, Some("B"), None), &None, &before));
    assert!(check_condition(&changed, &observed(None, None, None), &None, &before));
    let url_changed = wait_check("urlChanged", None);
    assert!(!check_condition(&url_changed, &observed(None, None, None), &None, &None));
}

#[test]
fn element_conditions() {
    assert!(matches!(wait_check("elementExists", Some("")), WaitCheck::Never));
    assert!(matches!(wait_check("elementGone", None), WaitCheck::Never));
    let e = wait_check("elementExists", Some("Save"));
    assert!(check_condition(&e, &observed(None, None, Some(true)), &None, &None));
    assert!(!check_condition(&e, &observed(None, None, None), &None, &None));
    let g = wait_check("elementGone", Some("Spinner"));
    assert!(check_condition(&g, &observed(None, None, Some(false)), &None, &None));
    assert!(!check_condition(&g, &observed(None, None, None), &None, &None));
}

#[test]
fn poll_steps() {
    assert!(matches!(wait_step("urlChanged", 1, false, 5, false), WaitStep::Sleep));
    match wait_step("urlChanged", 3, true, 1500, true) {
        WaitStep::Finish(t) => assert_eq!(
            t,
            "{\"condition\":\"urlChanged\",\"condition_met\":true,\"elapsed_ms\":1500,\"polls\":3}"
        ),
        other => panic!("unexpected: {:?}", other),
    }
    match wait_step("urlChanged", 20, false, 0, true) {
        WaitStep::Finish(t) => {
            let v: Value = serde_json::from_str(&t).unwrap();
            assert_eq!(v["condition_met"], Value::from(false));
            assert_eq!(v["timed_out"], Value::from(true));
            assert_eq!(v["polls"], Value::from(20));
            assert!(v["suggestion"].as_str().unwrap().starts_with("The condition was not met"));
        }
        other => panic!("unexpected: {:?}", other),
    }
}

use or4cl3_core::solus::SolusManager;
use or4cl3_core::solus::SystemOperations;

#[test]
fn test_solus_allocation() {
    let solus = SolusManager;
    let res = solus.allocate_resources("task1", "high_cpu").unwrap();
    assert!(res.contains("task1"));
    assert!(res.contains("high_cpu"));
}

#[test]
fn test_solus_monitoring() {
    let solus = SolusManager;
    let status = solus.monitor_task_status("task2").unwrap();
    assert!(status.contains("task2"));
    assert!(status.contains("Running"));
}

#[test]
fn test_solus_report_wording() {
    let solus = SolusManager;
    let res = solus.allocate_resources("task9", "low_mem").unwrap();
    assert_eq!(res, "Mock resources allocated for task task9 with requirements: low_mem");
    let status = solus.monitor_task_status("task9").unwrap();
    assert_eq!(status, "Mock status for task task9: Running");
}

use lynx_balancer::instance_host::kubernetes_host::{
    job_manifest, pick_pod, DeleteReport, KubernetesHost, PodSummary, Report, Step,
    BACKEND_PORT, MAX_DISCOVERY_ATTEMPTS, READY_TIMEOUT_SECS,
};
use lynx_balancer::instance_host::local_host::{
    get_available_port, LocalHost, PORT_RANGE_END, PORT_RANGE_START,
};
use lynx_balancer::instance_host::{port_to_string, HostError, Instance};

fn pod(name: &str, terminating: bool) -> PodSummary {
    PodSummary { name: name.to_string(), terminating }
}

#[test]
fn url_with_port_joins_address_and_port() {
    let instance = Instance::new("10.0.0.5".to_string(), 8080);
    assert_eq!(instance.url, "10.0.0.5");
    assert_eq!(instance.port, 8080);
    assert_eq!(instance.get_url_with_port(), "10.0.0.5:8080");
}

#[test]
fn url_with_port_at_the_edges() {
    assert_eq!(Instance::new("h".to_string(), 0).get_url_with_port(), "h:0");
    assert_eq!(Instance::new("h".to_string(), 9).get_url_with_port(), "h:9");
    assert_eq!(Instance::new("h".to_string(), 10).get_url_with_port(), "h:10");
    assert_eq!(Instance::new("".to_string(), 65535).get_url_with_port(), ":65535");
}

#[test]
fn ports_are_written_as_std_writes_them() {
    for port in [0u16, 1, 9, 10, 99, 100, 101, 999, 1000, 8000, 8080, 9000, 10000, 65535] {
        assert_eq!(port_to_string(port), port.to_string());
    }
}

#[test]
fn port_range_is_eight_to_nine_thousand() {
    assert_eq!(PORT_RANGE_START, 8000);
    assert_eq!(PORT_RANGE_END, 9000);
}

#[test]
fn first_available_port_is_chosen() {
    assert_eq!(get_available_port(&Vec::new(), |_| true), Some(8000));
    assert_eq!(get_available_port(&Vec::new(), |p| p >= 8005), Some(8005));
    assert_eq!(get_available_port(&Vec::new(), |p| p == 8999), Some(8999));
    assert_eq!(get_available_port(&vec![8000, 8001, 8003], |_| true), Some(8002));
    assert_eq!(get_available_port(&vec![8000, 8001], |p| p != 8002), Some(8003));
}

#[test]
fn no_port_is_chosen_outside_the_range() {
    assert_eq!(get_available_port(&Vec::new(), |_| false), None);
    assert_eq!(get_available_port(&Vec::new(), |p| p == 9000), None);
    assert_eq!(get_available_port(&Vec::new(), |p| p < 8000), None);
    let all: Vec<u16> = (8000..9000).collect();
    assert_eq!(get_available_port(&all, |_| true), None);
}

#[test]
fn local_start_gives_the_command_and_the_location() {
    let mut host = LocalHost::new("/srv/app".to_string());
    let launch = host.start_instance("alice".to_string(), |_| true).unwrap();
    assert_eq!(launch.instance.url, "0.0.0.0");
    assert_eq!(launch.instance.port, 8000);
    assert_eq!(
        launch.command,
        "cd /srv/app && uvicorn main:app --port 8000 --host 0.0.0.0"
    );
}

#[test]
fn local_ports_are_never_shared() {
    let mut host = LocalHost::new("/srv/app".to_string());
    let mut seen = Vec::new();
    for i in 0..50 {
        let launch = host.start_instance(format!("tenant{}", i), |_| true).unwrap();
        assert!(!seen.contains(&launch.instance.port));
        seen.push(launch.instance.port);
    }
    assert_eq!(seen[0], 8000);
    assert_eq!(seen[49], 8049);
}

#[test]
fn local_start_skips_refused_ports() {
    let mut host = LocalHost::new("/srv/app".to_string());
    let first = host.start_instance("alice".to_string(), |p| p >= 8003).unwrap();
    assert_eq!(first.instance.port, 8003);
    let second = host.start_instance("bob".to_string(), |p| p >= 8003).unwrap();
    assert_eq!(second.instance.port, 8004);
    assert_eq!(
        second.command,
        "cd /srv/app && uvicorn main:app --port 8004 --host 0.0.0.0"
    );
}

#[test]
fn local_start_fails_without_a_port() {
    let mut host = LocalHost::new("/srv/app".to_string());
    let started = host.start_instance("alice".to_string(), |_| false);
    assert!(matches!(started, Err(HostError::ProvisioningError(_))));
    assert!(matches!(host.stop_instance("alice".to_string()), Err(HostError::NotFound)));
}

#[test]
fn local_restart_supersedes_the_backend() {
    let mut host = LocalHost::new("/srv/app".to_string());
    let first = host.start_instance("alice".to_string(), |_| true).unwrap();
    let second = host.start_instance("alice".to_string(), |_| true).unwrap();
    assert_eq!(first.instance.port, 8000);
    assert_eq!(second.instance.port, 8001);
    assert!(host.stop_instance("alice".to_string()).is_ok());
    assert!(matches!(host.stop_instance("alice".to_string()), Err(HostError::NotFound)));
}

#[test]
fn local_stop_of_an_unknown_tenant_is_not_found() {
    let mut host = LocalHost::new("/srv/app".to_string());
    host.start_instance("alice".to_string(), |_| true).unwrap();
    host.start_instance("bob".to_string(), |_| true).unwrap();
    assert!(matches!(host.stop_instance("carol".to_string()), Err(HostError::NotFound)));
    // the others still hold their ports: a third tenant gets the next one
    let third = host.start_instance("carol".to_string(), |_| true).unwrap();
    assert_eq!(third.instance.port, 8002);
    assert!(host.stop_instance("alice".to_string()).is_ok());
    assert!(host.stop_instance("bob".to_string()).is_ok());
}

#[test]
fn local_stop_frees_the_port() {
    let mut host = LocalHost::new("/srv/app".to_string());
    host.start_instance("alice".to_string(), |_| true).unwrap();
    host.start_instance("bob".to_string(), |_| true).unwrap();
    assert!(host.stop_instance("alice".to_string()).is_ok());
    let again = host.start_instance("carol".to_string(), |_| true).unwrap();
    assert_eq!(again.instance.port, 8000);
    assert!(host.stop_instance("bob".to_string()).is_ok());
}

#[test]
fn cluster_constants() {
    assert_eq!(BACKEND_PORT, 8080);
    assert_eq!(READY_TIMEOUT_SECS, 15);
    assert_eq!(MAX_DISCOVERY_ATTEMPTS, 32);
}

#[test]
fn job_is_named_after_the_tenant() {
    let job = job_manifest(&"alice".to_string());
    assert_eq!(job.api_version, "batch/v1");
    assert_eq!(job.kind, "Job");
    assert_eq!(job.name, "alice");
    assert_eq!(job.pod_name, "instance-dynamic-pod");
    assert_eq!(job.container_name, "scene-host");
    assert_eq!(job.image, "ghcr.io/group-project-gut/lynx-scene-host-python:latest");
    assert_eq!(
        job.args,
        vec!["main:app", "--port", "8080", "--host", "0.0.0.0", "--workers", "1"]
    );
    assert_eq!(job.container_port, 8080);
    assert_eq!(job.env_name, "LYNX_SCENE_GENERATOR_URL");
    assert_eq!(
        job.env_value,
        "http://lynx-scene-generator-service.lynx-scene-generator:8080/get_scene"
    );
    assert_eq!(job.restart_policy, "Never");
}

#[test]
fn first_live_pod_is_picked() {
    assert_eq!(pick_pod(&Vec::new()), None);
    assert_eq!(pick_pod(&vec![pod("a", true)]), None);
    assert_eq!(pick_pod(&vec![pod("a", false)]), Some("a".to_string()));
    assert_eq!(
        pick_pod(&vec![pod("a", true), pod("b", false), pod("c", false)]),
        Some("b".to_string())
    );
    assert_eq!(pick_pod(&vec![pod("a", true), pod("b", true)]), None);
}

#[test]
fn healthy_backend_becomes_ready() {
    let host = KubernetesHost::new();
    let step = host.start_instance("alice".to_string());
    match &step {
        Step::CreateJob { name } => assert_eq!(name, "alice"),
        _ => panic!("the job is created first"),
    }
    let step = host.advance(step, Report::Submitted);
    match &step {
        Step::ListPods { selector, attempt } => {
            assert_eq!(selector, "job-name=alice");
            assert_eq!(*attempt, 0);
        }
        _ => panic!("the pods are listed next"),
    }
    let step = host.advance(step, Report::Listed(vec![pod("old", true), pod("alice-x7", false)]));
    match &step {
        Step::AwaitRunning { pod, timeout_secs } => {
            assert_eq!(pod, "alice-x7");
            assert_eq!(*timeout_secs, 15);
        }
        _ => panic!("the pod is waited for next"),
    }
    let step = host.advance(step, Report::Running);
    match &step {
        Step::ReadAddress { pod } => assert_eq!(pod, "alice-x7"),
        _ => panic!("the address is read next"),
    }
    let step = host.advance(step, Report::Address(Some("10.0.0.5".to_string())));
    match step {
        Step::Ready(instance) => {
            assert_eq!(instance.url, "10.0.0.5");
            assert_eq!(instance.port, 8080);
            assert_eq!(instance.get_url_with_port(), "10.0.0.5:8080");
        }
        _ => panic!("the backend is ready"),
    }
}

#[test]
fn discovery_is_bounded() {
    let host = KubernetesHost::new();
    let mut step = host.advance(host.start_instance("alice".to_string()), Report::Submitted);
    let mut listings = 0;
    loop {
        match step {
            Step::ListPods { selector, attempt } => {
                assert_eq!(attempt, listings);
                assert_eq!(selector, "job-name=alice");
                listings += 1;
                let report = if listings % 2 == 0 {
                    Report::Listed(Vec::new())
                } else {
                    Report::Listed(vec![pod("gone", true)])
                };
                step = host.advance(Step::ListPods { selector, attempt }, report);
            }
            Step::Failed(HostError::ProvisioningTimeout) => break,
            _ => panic!("no pod ever showed up"),
        }
    }
    assert_eq!(listings, 32);
}

#[test]
fn unnamed_pod_is_listed_again() {
    let host = KubernetesHost::new();
    let step = Step::ListPods { selector: "job-name=alice".to_string(), attempt: 4 };
    match host.advance(step, Report::Listed(vec![pod("", false), pod("b", false)])) {
        Step::ListPods { selector, attempt } => {
            assert_eq!(selector, "job-name=alice");
            assert_eq!(attempt, 5);
        }
        _ => panic!("the pods are listed again"),
    }
}

#[test]
fn unready_pod_times_out() {
    let host = KubernetesHost::new();
    let step = Step::AwaitRunning { pod: "alice-x7".to_string(), timeout_secs: 15 };
    assert!(matches!(
        host.advance(step, Report::TimedOut),
        Step::Failed(HostError::ProvisioningTimeout)
    ));
}

#[test]
fn cluster_failure_ends_provisioning_with_its_cause() {
    let host = KubernetesHost::new();
    let steps = vec![
        Step::CreateJob { name: "alice".to_string() },
        Step::ListPods { selector: "job-name=alice".to_string(), attempt: 3 },
        Step::AwaitRunning { pod: "p".to_string(), timeout_secs: 15 },
        Step::ReadAddress { pod: "p".to_string() },
    ];
    for step in steps {
        match host.advance(step, Report::Failed("forbidden".to_string())) {
            Step::Failed(HostError::ProvisioningError(cause)) => assert_eq!(cause, "forbidden"),
            _ => panic!("the failure ends provisioning"),
        }
    }
}

#[test]
fn pod_without_address_is_a_failure() {
    let host = KubernetesHost::new();
    let step = Step::ReadAddress { pod: "p".to_string() };
    match host.advance(step, Report::Address(None)) {
        Step::Failed(HostError::ProvisioningError(cause)) => {
            assert_eq!(cause, "pod has no address")
        }
        _ => panic!("a pod without address fails"),
    }
}

#[test]
fn report_out_of_turn_is_a_failure() {
    let host = KubernetesHost::new();
    let step = Step::CreateJob { name: "alice".to_string() };
    match host.advance(step, Report::Running) {
        Step::Failed(HostError::ProvisioningError(cause)) => {
            assert_eq!(cause, "report out of turn")
        }
        _ => panic!("a report out of turn fails"),
    }
    let step = Step::ReadAddress { pod: "p".to_string() };
    assert!(matches!(
        host.advance(step, Report::TimedOut),
        Step::Failed(HostError::ProvisioningError(_))
    ));
}

#[test]
fn an_end_stays_an_end() {
    let host = KubernetesHost::new();
    let done = Step::Ready(Instance::new("10.0.0.5".to_string(), 8080));
    match host.advance(done, Report::Failed("late".to_string())) {
        Step::Ready(instance) => assert_eq!(instance.get_url_with_port(), "10.0.0.5:8080"),
        _ => panic!("ready stays ready"),
    }
    let failed = Step::Failed(HostError::ProvisioningTimeout);
    assert!(matches!(
        host.advance(failed, Report::Submitted),
        Step::Failed(HostError::ProvisioningTimeout)
    ));
}

#[test]
fn cluster_stop_deletes_in_the_background() {
    let host = KubernetesHost::new();
    let deletion = host.stop_instance("alice".to_string());
    assert_eq!(deletion.name, "alice");
    assert!(deletion.background);
    assert!(host.deleted(DeleteReport::Accepted).is_ok());
    assert!(matches!(host.deleted(DeleteReport::Missing), Err(HostError::NotFound)));
    match host.deleted(DeleteReport::Failed("forbidden".to_string())) {
        Err(HostError::ProvisioningError(cause)) => assert_eq!(cause, "forbidden"),
        _ => panic!("the failure is reported"),
    }
}

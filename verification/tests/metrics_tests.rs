use whtop::errors::{FormattedError, IntoRequestError, ProviderError, RequestError, RouteError};
use whtop::http_client::HttpClientOptions;
use whtop::metrics::{
    create_response, get_cpu, get_memory, CpuInfo, GlobalCpuInfo, ProcessInfo, SnapshotData,
};
use whtop::theme::Theme;
use whtop::timeout::{TimedOut, TimeoutLayer, TimeoutPoll};

fn process(pid: &str, memory: u64) -> ProcessInfo {
    ProcessInfo {
        pid: String::from(pid),
        parent_pid: Some(String::from("1")),
        name: format!("proc-{pid}"),
        cpu: 50,
        memory,
        virtual_memory: memory,
        run_time: 1,
        path: Some(format!("/bin/proc-{pid}")),
    }
}

fn sample_data() -> SnapshotData {
    SnapshotData {
        global_cpu: GlobalCpuInfo { usage: 1250, frequency: 2400 },
        cpus: vec![CpuInfo {
            name: String::from("cpu0"),
            inner: GlobalCpuInfo { usage: 900, frequency: 2400 },
        }],
        total_memory: 100,
        used_memory: 40,
        free_memory: 30,
        available_memory: 55,
        processes: Vec::new(),
    }
}

#[test]
fn sort_orders_by_descending_memory_with_ties() {
    let rows = vec![
        process("1", 5),
        process("2", 500),
        process("3", 5),
        process("4", 1_000_000),
        process("5", 0),
    ];
    let response = create_response(&rows);
    let memory: Vec<u64> = response.processes.iter().map(|p| p.memory).collect();
    assert_eq!(memory, vec![1_000_000, 500, 5, 5, 0]);
    // Same rows, just reordered.
    let mut pids: Vec<&str> = response.processes.iter().map(|p| p.pid.as_str()).collect();
    pids.sort();
    assert_eq!(pids, vec!["1", "2", "3", "4", "5"]);
}

#[test]
fn sort_of_empty_table_is_empty() {
    let response = create_response(&Vec::new());
    assert!(response.processes.is_empty());
}

#[test]
fn cpu_body_copies_every_core() {
    let data = sample_data();
    let body = get_cpu(&data);
    assert_eq!(body.global, GlobalCpuInfo { usage: 1250, frequency: 2400 });
    assert_eq!(body.cpus.len(), 1);
    assert_eq!(body.cpus[0].name, "cpu0");
    assert_eq!(body.cpus[0].inner, GlobalCpuInfo { usage: 900, frequency: 2400 });
}

#[test]
fn memory_body_copies_the_four_numbers() {
    let data = sample_data();
    let body = get_memory(&data);
    assert_eq!(body.total, 100);
    assert_eq!(body.used, 40);
    assert_eq!(body.free, 30);
    assert_eq!(body.available, 55);
}

#[test]
fn route_error_wraps_the_provider_message() {
    let failure = ProviderError { message: String::from("no permission") };
    let error = RouteError::from(failure);
    let response = error.into_response();
    assert_eq!(response.status, 500);
}

#[test]
fn request_error_defaults_to_internal_server_error() {
    let formatted = FormattedError::new(
        String::from("boom"),
        vec![String::from("inner cause")],
    );
    let error = RequestError::from(formatted);
    assert_eq!(error.status_code, 500);
    assert_eq!(error.formatted.message, "boom");
    let moved = error.with_status_code(503);
    assert_eq!(moved.status_code, 503);
    assert_eq!(moved.formatted.caused_by, vec![String::from("inner cause")]);
}

#[test]
fn formatted_error_takes_a_status_code_directly() {
    let formatted = FormattedError::new(String::from("not found"), Vec::new());
    let error = formatted.with_status_code(404);
    assert_eq!(error.status_code, 404);
    assert_eq!(error.formatted.message, "not found");
}

#[test]
fn timeout_poll_prefers_the_finished_request() {
    let stage = TimeoutLayer::new(3000).layer();
    assert_eq!(stage.timeout_millis(), 3000);
    assert_eq!(stage.poll_step(true, false), TimeoutPoll::Inner);
    assert_eq!(stage.poll_step(true, true), TimeoutPoll::Inner);
    assert_eq!(stage.poll_step(false, true), TimeoutPoll::TimedOut);
    assert_eq!(stage.poll_step(false, false), TimeoutPoll::Pending);
}

#[test]
fn timed_out_describes_itself() {
    assert_eq!(TimedOut::default().message(), "request timed out");
}

#[test]
fn http_client_defaults_are_bounded() {
    let options = HttpClientOptions::default();
    assert_eq!(options.timeout_millis, 3000);
    assert_eq!(options.concurrency_limit, 5);
}

#[test]
fn theme_defaults_to_css_custom_properties() {
    let theme = Theme::default();
    assert_eq!(theme.text, "var(--theme-text)");
    assert_eq!(theme.background, "var(--theme-background)");
    assert_eq!(theme.accent, "var(--theme-accent)");
    assert_eq!(theme.primary, "var(--theme-primary)");
    assert_eq!(theme.warning, "var(--theme-warning)");
}

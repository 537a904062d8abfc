use koala_clash::ipc::{
    check_command_reply, check_ipc_service_status, check_service_version, core_binary_name,
    is_service_available, start_with_existing_service, stop_core_by_service, IpcCommand, IpcReply,
    IpcResponse, JsonResponse, ResponseBody, ServiceError, StartParams, VersionResponse,
};
use koala_clash::json::{JsonNumber, JsonValue};

fn ipc_text(text: &str) -> JsonValue {
    JsonValue::Text(text.to_string())
}

fn ipc_number(n: u64) -> JsonValue {
    JsonValue::Number(JsonNumber::PosInt(n))
}

fn ipc_object(members: Vec<(&str, JsonValue)>) -> JsonValue {
    JsonValue::Object(members.into_iter().map(|(k, v)| (k.to_string(), v)).collect())
}

fn ipc_ok(data: JsonValue) -> IpcReply {
    Ok(IpcResponse { success: true, data: Some(data), error: None })
}

fn ipc_body() -> JsonValue {
    ipc_object(vec![
        ("core_type", ipc_text("koala-mihomo")),
        ("bin_path", ipc_text("/opt/app/koala-mihomo")),
        ("config_dir", ipc_text("/home/u/.config/app")),
        ("log_file", ipc_text("/home/u/.config/app/service.log")),
    ])
}

#[test]
fn json_lookup_finds_the_first_member() {
    let value = ipc_object(vec![
        ("code", ipc_number(3)),
        ("msg", ipc_text("first")),
        ("msg", ipc_text("second")),
        ("flag", JsonValue::Bool(true)),
        ("nothing", JsonValue::Null),
    ]);
    assert_eq!(value.get("code"), Some(&ipc_number(3)));
    assert_eq!(value.get("code").unwrap().as_u64(), Some(3));
    assert_eq!(value.get_text("msg"), Some("first".to_string()));
    assert_eq!(value.get("missing"), None);
    assert_eq!(value.get_text("code"), None);
    assert!(value.get("nothing").unwrap().is_null());
    assert_eq!(value.get("flag").unwrap().as_str(), None);
    assert_eq!(ipc_text("x").get("code"), None);
    assert_eq!(JsonValue::List(vec![ipc_number(1)]).get("0"), None);
    assert_eq!(JsonValue::Number(JsonNumber::NegInt(-1)).as_u64(), None);
    assert_eq!(JsonValue::Number(JsonNumber::Float).as_u64(), None);
}

#[test]
fn version_is_read_from_the_nested_body() {
    let reply = ipc_ok(ipc_object(vec![
        ("code", ipc_number(0)),
        ("msg", ipc_text("ok")),
        ("data", ipc_object(vec![("service", ipc_text("svc")), ("version", ipc_text("1.0.9"))])),
    ]));
    assert_eq!(check_service_version(&reply), Ok("1.0.9".to_string()));
}

#[test]
fn version_is_read_from_the_older_flat_form() {
    let reply = ipc_ok(ipc_object(vec![
        ("service", ipc_text("Koala Clash Service")),
        ("version", ipc_text("1.1.0")),
    ]));
    assert_eq!(check_service_version(&reply), Ok("1.1.0".to_string()));
    let incomplete = ipc_ok(ipc_object(vec![("version", ipc_text("1.1.0"))]));
    assert_eq!(
        check_service_version(&incomplete),
        Err(ServiceError::Malformed { command: IpcCommand::GetVersion })
    );
}

#[test]
fn version_errors_are_told_apart() {
    let unreachable: IpcReply = Err("connection refused".to_string());
    assert_eq!(
        check_service_version(&unreachable),
        Err(ServiceError::Unreachable { detail: "connection refused".to_string() })
    );
    let transport: IpcReply =
        Ok(IpcResponse { success: false, data: None, error: Some("pipe broken".to_string()) });
    assert_eq!(
        check_service_version(&transport),
        Err(ServiceError::Transport { message: "pipe broken".to_string() })
    );
    let silent: IpcReply = Ok(IpcResponse { success: false, data: None, error: None });
    assert_eq!(
        check_service_version(&silent),
        Err(ServiceError::Transport { message: "Failed to get service version".to_string() })
    );
    let empty: IpcReply = Ok(IpcResponse { success: true, data: None, error: None });
    assert_eq!(
        check_service_version(&empty),
        Err(ServiceError::NoData { command: IpcCommand::GetVersion })
    );
    let no_version = ipc_ok(ipc_object(vec![("data", ipc_object(vec![("version", ipc_number(1))]))]));
    assert_eq!(check_service_version(&no_version), Err(ServiceError::NoVersion));
    let null_body = ipc_ok(ipc_object(vec![("data", JsonValue::Null)]));
    assert_eq!(check_service_version(&null_body), Err(ServiceError::NoVersion));
}

#[test]
fn status_is_read_leniently_when_code_and_msg_are_there() {
    let reply = ipc_ok(ipc_object(vec![
        ("code", ipc_number(0)),
        ("msg", ipc_text("ok")),
        ("data", ipc_body()),
    ]));
    assert_eq!(
        check_ipc_service_status(&reply),
        Ok(JsonResponse {
            code: 0,
            msg: "ok".to_string(),
            data: Some(ResponseBody {
                core_type: Some("koala-mihomo".to_string()),
                bin_path: "/opt/app/koala-mihomo".to_string(),
                config_dir: "/home/u/.config/app".to_string(),
                log_file: "/home/u/.config/app/service.log".to_string(),
            }),
        })
    );
    let odd = ipc_ok(ipc_object(vec![
        ("code", ipc_text("zero")),
        ("msg", ipc_number(7)),
        ("data", ipc_object(vec![("bin_path", ipc_text("only this"))])),
    ]));
    assert_eq!(
        check_ipc_service_status(&odd),
        Ok(JsonResponse { code: 0, msg: "ok".to_string(), data: None })
    );
    let failing = ipc_ok(ipc_object(vec![("code", ipc_number(500)), ("msg", ipc_text("core crashed"))]));
    assert_eq!(
        check_ipc_service_status(&failing),
        Ok(JsonResponse { code: 500, msg: "core crashed".to_string(), data: None })
    );
}

#[test]
fn status_errors_are_told_apart() {
    let unreachable: IpcReply = Err("no such socket".to_string());
    assert_eq!(
        check_ipc_service_status(&unreachable),
        Err(ServiceError::Unreachable { detail: "no such socket".to_string() })
    );
    let silent: IpcReply = Ok(IpcResponse { success: false, data: None, error: None });
    assert_eq!(
        check_ipc_service_status(&silent),
        Err(ServiceError::Transport { message: "Unknown service error".to_string() })
    );
    let empty: IpcReply = Ok(IpcResponse { success: true, data: None, error: None });
    assert_eq!(
        check_ipc_service_status(&empty),
        Err(ServiceError::NoData { command: IpcCommand::GetStatus })
    );
    let shapeless = ipc_ok(ipc_object(vec![("code", ipc_number(0))]));
    assert_eq!(
        check_ipc_service_status(&shapeless),
        Err(ServiceError::Malformed { command: IpcCommand::GetStatus })
    );
    let not_an_object = ipc_ok(ipc_text("ok"));
    assert_eq!(
        check_ipc_service_status(&not_an_object),
        Err(ServiceError::Malformed { command: IpcCommand::GetStatus })
    );
}

#[test]
fn a_service_that_answers_counts_as_available() {
    let running = check_ipc_service_status(&ipc_ok(ipc_object(vec![
        ("code", ipc_number(0)),
        ("msg", ipc_text("ok")),
        ("data", ipc_body()),
    ])));
    assert_eq!(is_service_available(running), Ok(()));
    let failing = check_ipc_service_status(&ipc_ok(ipc_object(vec![
        ("code", ipc_number(1)),
        ("msg", ipc_text("core not running")),
    ])));
    assert_eq!(is_service_available(failing), Ok(()));
    let gone = check_ipc_service_status(&Err("refused".to_string()));
    assert_eq!(
        is_service_available(gone),
        Err(ServiceError::Unreachable { detail: "refused".to_string() })
    );
}

#[test]
fn a_nonzero_inner_code_is_a_failure_under_outer_success() {
    let reply = ipc_ok(ipc_object(vec![("code", ipc_number(2)), ("msg", ipc_text("bad config"))]));
    assert_eq!(
        start_with_existing_service(&reply),
        Err(ServiceError::Functional {
            command: IpcCommand::Start,
            code: 2,
            message: "bad config".to_string(),
        })
    );
    assert_eq!(
        start_with_existing_service(&reply).unwrap_err().message(),
        "Failed to start core: bad config"
    );
    assert_eq!(
        stop_core_by_service(&reply).unwrap_err().message(),
        "Failed to stop core: bad config"
    );
    let unreadable = ipc_ok(ipc_object(vec![("code", ipc_text("two"))]));
    assert_eq!(
        start_with_existing_service(&unreadable),
        Err(ServiceError::Functional {
            command: IpcCommand::Start,
            code: 1,
            message: "Unknown error".to_string(),
        })
    );
}

#[test]
fn commands_succeed_without_a_failure_code() {
    let zero = ipc_ok(ipc_object(vec![("code", ipc_number(0)), ("msg", ipc_text("ok"))]));
    assert_eq!(start_with_existing_service(&zero), Ok(()));
    assert_eq!(stop_core_by_service(&zero), Ok(()));
    let no_code = ipc_ok(ipc_object(vec![("msg", ipc_text("whatever"))]));
    assert_eq!(start_with_existing_service(&no_code), Ok(()));
    let no_data: IpcReply = Ok(IpcResponse { success: true, data: None, error: None });
    assert_eq!(stop_core_by_service(&no_data), Ok(()));
    assert_eq!(check_command_reply(&no_data, IpcCommand::Stop), Ok(()));
}

#[test]
fn commands_fail_with_the_transport() {
    let silent: IpcReply = Ok(IpcResponse { success: false, data: None, error: None });
    assert_eq!(
        start_with_existing_service(&silent),
        Err(ServiceError::Transport { message: "Failed to start core".to_string() })
    );
    assert_eq!(
        stop_core_by_service(&silent),
        Err(ServiceError::Transport { message: "Failed to stop core".to_string() })
    );
    let inner_ok_outer_failed: IpcReply = Ok(IpcResponse {
        success: false,
        data: Some(ipc_object(vec![("code", ipc_number(0))])),
        error: Some("timeout".to_string()),
    });
    assert_eq!(
        start_with_existing_service(&inner_ok_outer_failed),
        Err(ServiceError::Transport { message: "timeout".to_string() })
    );
    let gone: IpcReply = Err("refused".to_string());
    assert_eq!(
        start_with_existing_service(&gone).unwrap_err().message(),
        "Unable to connect to Koala Clash Service: refused"
    );
}

#[test]
fn stopping_through_a_service_that_is_gone_is_no_error() {
    let gone: IpcReply = Err("refused".to_string());
    assert_eq!(stop_core_by_service(&gone), Ok(()));
    assert_eq!(
        check_command_reply(&gone, IpcCommand::Stop),
        Err(ServiceError::Unreachable { detail: "refused".to_string() })
    );
    let failing = ipc_ok(ipc_object(vec![("code", ipc_number(9)), ("msg", ipc_text("stuck"))]));
    assert_eq!(
        stop_core_by_service(&failing),
        Err(ServiceError::Functional {
            command: IpcCommand::Stop,
            code: 9,
            message: "stuck".to_string(),
        })
    );
}

#[test]
fn typed_bodies_are_decoded_strictly() {
    assert!(ResponseBody::from_json(&ipc_body()).is_some());
    let without_core = ipc_object(vec![
        ("bin_path", ipc_text("b")),
        ("config_dir", ipc_text("c")),
        ("log_file", ipc_text("l")),
    ]);
    assert_eq!(
        ResponseBody::from_json(&without_core),
        Some(ResponseBody {
            core_type: None,
            bin_path: "b".to_string(),
            config_dir: "c".to_string(),
            log_file: "l".to_string(),
        })
    );
    let null_core = ipc_object(vec![
        ("core_type", JsonValue::Null),
        ("bin_path", ipc_text("b")),
        ("config_dir", ipc_text("c")),
        ("log_file", ipc_text("l")),
    ]);
    assert_eq!(ResponseBody::from_json(&null_core).unwrap().core_type, None);
    let wrong_core = ipc_object(vec![
        ("core_type", ipc_number(1)),
        ("bin_path", ipc_text("b")),
        ("config_dir", ipc_text("c")),
        ("log_file", ipc_text("l")),
    ]);
    assert_eq!(ResponseBody::from_json(&wrong_core), None);
    assert_eq!(ResponseBody::from_json(&ipc_object(vec![("bin_path", ipc_text("b"))])), None);
    assert_eq!(ResponseBody::from_json(&JsonValue::Null), None);

    assert_eq!(
        VersionResponse::from_json(&ipc_object(vec![
            ("service", ipc_text("s")),
            ("version", ipc_text("v")),
        ])),
        Some(VersionResponse { service: "s".to_string(), version: "v".to_string() })
    );
    assert_eq!(VersionResponse::from_json(&ipc_object(vec![("service", ipc_text("s"))])), None);

    assert_eq!(
        JsonResponse::from_json(&ipc_object(vec![
            ("code", ipc_number(4)),
            ("msg", ipc_text("m")),
            ("data", JsonValue::Null),
        ])),
        Some(JsonResponse { code: 4, msg: "m".to_string(), data: None })
    );
    assert_eq!(
        JsonResponse::from_json(&ipc_object(vec![
            ("code", ipc_number(4)),
            ("msg", ipc_text("m")),
            ("data", ipc_text("no body")),
        ])),
        None
    );
    assert_eq!(
        JsonResponse::from_json(&ipc_object(vec![("code", ipc_text("4")), ("msg", ipc_text("m"))])),
        None
    );
}

#[test]
fn error_messages_are_what_the_user_is_told() {
    assert_eq!(
        ServiceError::NoData { command: IpcCommand::GetStatus }.message(),
        "No data in service response"
    );
    assert_eq!(
        ServiceError::NoData { command: IpcCommand::GetVersion }.message(),
        "No data in service version response"
    );
    assert_eq!(
        ServiceError::Malformed { command: IpcCommand::GetVersion }.message(),
        "Unable to parse service version data"
    );
    assert_eq!(
        ServiceError::Malformed { command: IpcCommand::GetStatus }.message(),
        "Unable to parse service response data"
    );
    assert_eq!(
        ServiceError::NoVersion.message(),
        "No valid version information found in response"
    );
    assert_eq!(
        ServiceError::RateLimited.message(),
        "Service reinstallation is rate limited. Please try again later."
    );
    assert_eq!(
        ServiceError::InstallFailed { detail: "exit 1".to_string() }.message(),
        "failed to install service: exit 1"
    );
    assert_eq!(
        ServiceError::MismatchNoReinstall.message(),
        "Service version mismatch and cannot reinstall; startup failed"
    );
    assert_eq!(
        ServiceError::ReinstallFailed { detail: "d".to_string() }.message(),
        "Failed to reinstall service: d"
    );
    assert_eq!(
        ServiceError::Unavailable.message(),
        "Service is not available and cannot be reinstalled at this time"
    );
    assert_eq!(
        ServiceError::ForcedReinstallFailed { detail: "d".to_string() }.message(),
        "Forced service reinstallation failed: d"
    );
    let cloned = ServiceError::Transport { message: "t".to_string() }.clone();
    assert_eq!(cloned.message(), "t");
}

#[test]
fn commands_have_their_wire_names() {
    assert_eq!(IpcCommand::GetStatus.wire_name(), "GetClash");
    assert_eq!(IpcCommand::GetVersion.wire_name(), "GetVersion");
    assert_eq!(IpcCommand::Start.wire_name(), "StartClash");
    assert_eq!(IpcCommand::Stop.wire_name(), "StopClash");
}

#[test]
fn start_payload_lists_the_five_parameters() {
    let params = StartParams {
        core_type: "koala-mihomo".to_string(),
        bin_path: "/opt/app/koala-mihomo".to_string(),
        config_dir: "/cfg".to_string(),
        config_file: "/cfg/run.yaml".to_string(),
        log_file: "/cfg/service.log".to_string(),
    };
    assert_eq!(
        params.to_json(),
        ipc_object(vec![
            ("core_type", ipc_text("koala-mihomo")),
            ("bin_path", ipc_text("/opt/app/koala-mihomo")),
            ("config_dir", ipc_text("/cfg")),
            ("config_file", ipc_text("/cfg/run.yaml")),
            ("log_file", ipc_text("/cfg/service.log")),
        ])
    );
    assert_eq!(core_binary_name("koala-mihomo", true), "koala-mihomo.exe");
    assert_eq!(core_binary_name("koala-mihomo", false), "koala-mihomo");
}

#[test]
fn a_failure_code_hides_the_version() {
    let reply = ipc_ok(ipc_object(vec![
        ("code", ipc_number(7)),
        ("msg", ipc_text("service is shutting down")),
        ("data", ipc_object(vec![("version", ipc_text("1.1.0"))])),
    ]));
    assert_eq!(
        check_service_version(&reply),
        Err(ServiceError::Functional {
            command: IpcCommand::GetVersion,
            code: 7,
            message: "service is shutting down".to_string(),
        })
    );
    assert_eq!(check_service_version(&reply).unwrap_err().message(), "service is shutting down");
    let silent = ipc_ok(ipc_object(vec![("code", ipc_number(7))]));
    assert_eq!(check_service_version(&silent).unwrap_err().message(), "Unknown error");
    // A code that is no number reports nothing.
    let odd = ipc_ok(ipc_object(vec![
        ("code", ipc_text("7")),
        ("data", ipc_object(vec![("version", ipc_text("1.1.0"))])),
    ]));
    assert_eq!(check_service_version(&odd), Ok("1.1.0".to_string()));
}

use syncplaympv::commands::{command_to_json, observe_commands};
use syncplaympv::mpv::{
    choose_media, default_socket_path, interpret, mpv_args, mpv_read_step, mpv_socket_arg,
    MediaChoice, MpvClient, MpvCommand, MpvEvent, MpvEventRaw, MpvRead, Platform, RawData, RawNote,
    RawStep, SeekWatch, SocketPath,
};
use syncplaympv::network::link::LineInput;

fn raw(event: Option<&str>) -> MpvEventRaw {
    MpvEventRaw {
        event: event.map(|s| s.to_string()),
        error: None,
        data: None,
        request_id: None,
        id: None,
        name: None,
    }
}

fn change(id: u64, name: &str, data: Option<RawData>) -> MpvEventRaw {
    MpvEventRaw { id: Some(id), name: Some(name.to_string()), data, ..raw(Some("property-change")) }
}

fn path(text: &str, file_name: Option<&str>) -> SocketPath {
    SocketPath { text: text.to_string(), file_name: file_name.map(|s| s.to_string()) }
}

#[test]
fn commands_in_json() {
    assert_eq!(
        command_to_json(&MpvCommand::Play, ""),
        r#"{"command":["set_property","pause",false]}"#
    );
    assert_eq!(
        command_to_json(&MpvCommand::Pause, ""),
        r#"{"command":["set_property","pause",true]}"#
    );
    assert_eq!(
        command_to_json(&MpvCommand::Seek(12_500), "12.5"),
        r#"{"command":["seek",12.5,"absolute"]}"#
    );
}

#[test]
fn seek_is_the_text_that_serde_json_writes() {
    for ms in [0u64, 1, 999, 1009, 12_345_678, u64::MAX] {
        let seconds = ms as f64 / 1000.0;
        let mut object = serde_json::Map::new();
        let items = vec![
            serde_json::Value::from("seek"),
            serde_json::Value::from(seconds),
            serde_json::Value::from("absolute"),
        ];
        object.insert("command".to_string(), serde_json::Value::from(items));
        let expected = serde_json::Value::Object(object).to_string();
        let number = serde_json::Value::from(seconds).to_string();
        assert_eq!(command_to_json(&MpvCommand::Seek(ms), &number), expected);
    }
}

#[test]
fn observed_properties() {
    assert_eq!(
        observe_commands(),
        vec![
            r#"{"command":["observe_property",1,"pause"]}"#,
            r#"{"command":["observe_property",2,"playback-time"]}"#,
        ]
    );
}

#[test]
fn property_changes() {
    let flag = |b| Some(RawData::Flag(b));
    assert_eq!(interpret(&change(1, "pause", flag(true))), RawStep::Deliver(MpvEvent::Pause));
    assert_eq!(interpret(&change(1, "pause", flag(false))), RawStep::Deliver(MpvEvent::Unpause));
    assert_eq!(
        interpret(&change(2, "playback-time", Some(RawData::Time(1500)))),
        RawStep::Deliver(MpvEvent::TimePos(1500))
    );
}

#[test]
fn unusable_property_values() {
    let nothing = RawStep::Ignore(RawNote::Nothing);
    assert_eq!(interpret(&change(1, "pause", None)), nothing);
    assert_eq!(interpret(&change(1, "pause", Some(RawData::Time(1)))), nothing);
    assert_eq!(interpret(&change(2, "playback-time", None)), nothing);
    assert_eq!(interpret(&change(2, "playback-time", Some(RawData::Other))), nothing);
    assert_eq!(interpret(&change(2, "playback-time", Some(RawData::Flag(true)))), nothing);
}

#[test]
fn unknown_properties() {
    let unknown = RawStep::Ignore(RawNote::UnknownProperty);
    assert_eq!(interpret(&change(2, "pause", Some(RawData::Flag(true)))), unknown);
    assert_eq!(interpret(&change(1, "playback-time", Some(RawData::Time(1)))), unknown);
    assert_eq!(interpret(&change(3, "volume", None)), unknown);
    assert_eq!(interpret(&raw(Some("property-change"))), unknown);
}

#[test]
fn other_messages() {
    assert_eq!(interpret(&raw(None)), RawStep::Ignore(RawNote::Nothing));
    assert_eq!(
        interpret(&raw(Some("shutdown"))),
        RawStep::DeliverLast(MpvEvent::Disconnected)
    );
    assert_eq!(interpret(&raw(Some("file-loaded"))), RawStep::Ignore(RawNote::FileLoaded));
    assert_eq!(interpret(&raw(Some("end-file"))), RawStep::Ignore(RawNote::EndFile));
    assert_eq!(interpret(&raw(Some("seek"))), RawStep::Ignore(RawNote::SeekBegan));
    assert_eq!(interpret(&raw(Some("idle"))), RawStep::Ignore(RawNote::UnknownEvent));
    let mut failed = raw(Some("seek"));
    failed.error = Some("no file".to_string());
    assert_eq!(interpret(&failed), RawStep::Ignore(RawNote::ReplyError));
}

#[test]
fn a_seek_is_told_once() {
    let time = |ms| RawStep::Deliver(MpvEvent::TimePos(ms));
    let mut watch = SeekWatch::new();
    assert_eq!(watch.observe(time(10)), None);
    assert_eq!(watch.observe(RawStep::Ignore(RawNote::SeekBegan)), None);
    assert_eq!(watch.observe(RawStep::Deliver(MpvEvent::Pause)), None);
    assert_eq!(watch.observe(RawStep::Ignore(RawNote::UnknownEvent)), None);
    assert_eq!(watch.observe(time(9000)), Some(9000));
    assert_eq!(watch.observe(time(9040)), None);
}

#[test]
fn what_is_read_from_the_socket() {
    match mpv_read_step(&LineInput::Line(" {\"event\":\"idle\"} \n".to_string())) {
        MpvRead::Message(text) => assert_eq!(text, "{\"event\":\"idle\"}"),
        other => panic!("{:?}", other),
    }
    assert!(matches!(mpv_read_step(&LineInput::Line("\n".to_string())), MpvRead::Blank));
    assert!(matches!(
        mpv_read_step(&LineInput::Eof),
        MpvRead::DeliverLast(MpvEvent::Disconnected)
    ));
    assert!(matches!(
        mpv_read_step(&LineInput::Failed),
        MpvRead::DeliverLast(MpvEvent::Disconnected)
    ));
}

#[test]
fn socket_arguments() {
    let p = path("/tmp/mpv.sock", Some("mpv.sock"));
    assert_eq!(mpv_socket_arg(&p, Platform::Unix), "/tmp/mpv.sock");
    assert_eq!(mpv_socket_arg(&p, Platform::Windows), r"\\.\pipe\mpv.sock");
    assert_eq!(mpv_socket_arg(&path("/", None), Platform::Windows), r"\\.\pipe\");
    assert_eq!(MpvClient::new(p).socket_path.text, "/tmp/mpv.sock");
}

#[test]
fn default_sockets() {
    assert_eq!(default_socket_path(Platform::Unix, 0xabc, 0), "/tmp/mpv_sync.sock");
    assert_eq!(default_socket_path(Platform::Unix, 1, 2), "/tmp/mpv_sync.sock");
    assert_eq!(default_socket_path(Platform::Windows, 26, 17), "mpv_sync_1a_11");
    assert_ne!(
        default_socket_path(Platform::Windows, 0x11, 0x1),
        default_socket_path(Platform::Windows, 0x1, 0x11)
    );
}

#[test]
fn arguments_of_the_player() {
    assert_eq!(
        mpv_args("/tmp/x.sock"),
        vec![
            "--input-ipc-server=/tmp/x.sock",
            "--no-terminal",
            "--keep-open=yes",
            "--idle=yes",
            "--force-window=yes",
        ]
    );
}

#[test]
fn choice_of_media() {
    assert!(matches!(
        choose_media(Some("v"), Some("a")),
        MediaChoice::Use { video: "v", audio: Some("a") }
    ));
    assert!(matches!(choose_media(Some("v"), None), MediaChoice::Use { video: "v", audio: None }));
    assert!(matches!(choose_media(None, Some("a")), MediaChoice::Ask));
    assert!(matches!(choose_media::<&str>(None, None), MediaChoice::Ask));
}

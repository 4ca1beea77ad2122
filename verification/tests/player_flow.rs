use vm_player::cast::{CastLib, CastMember, CastMemberRef, MemberKind};
use vm_player::datum::{Datum, DatumRef};
use vm_player::events::clamp_to_i16;
use vm_player::movie::{Handler, Instr, Movie, Script};
use vm_player::notify::Notification;
use vm_player::player::{Command, Player};
use vm_player::score::{Channel, Score};

fn member(lib: i32, num: i32) -> CastMemberRef {
    CastMemberRef { cast_lib: lib, cast_member: num }
}

fn cast_entry(r: CastMemberRef, name: &str, kind: MemberKind, payload: Vec<u8>) -> (
    CastMemberRef,
    CastMember,
) {
    (r, CastMember { name: name.to_string(), kind, payload })
}

/// A movie with channels {1: memberA, 2: memberB}, a third member C, and one
/// script "main" whose handler "go" reassigns channel 2 to memberC at index 5.
fn demo_movie() -> Movie {
    let a = member(1, 1);
    let b = member(1, 2);
    let c = member(1, 3);
    Movie {
        score: Score {
            channels: vec![
                Channel { number: 1, member: Some(a) },
                Channel { number: 2, member: Some(b) },
            ],
        },
        cast: CastLib {
            entries: vec![
                cast_entry(a, "nameA", MemberKind::Text, vec![]),
                cast_entry(b, "nameB", MemberKind::Text, vec![]),
                cast_entry(c, "nameC", MemberKind::Bitmap, vec![0x0f, 0xa0, 0x00]),
            ],
        },
        scripts: vec![Script {
            name: "main".to_string(),
            handlers: vec![Handler {
                name: "go".to_string(),
                code: vec![
                    Instr::Nop,
                    Instr::Nop,
                    Instr::Nop,
                    Instr::Nop,
                    Instr::Nop,
                    Instr::SetChannelMember { channel: 2, member: c },
                    Instr::Ret,
                ],
            }],
        }],
    }
}

fn channel_note(n: &Notification) -> (i32, String) {
    match n {
        Notification::ChannelNameChanged(num, name) => (*num, name.clone()),
        _ => panic!("expected a channel-name notification"),
    }
}

#[test]
fn subscribe_replays_channels_in_number_order() {
    let mut p = Player::new();
    let notes = p.load_movie(demo_movie());
    assert!(notes.is_empty());
    let notes = p.subscribe_to_channel_names();
    assert_eq!(notes.len(), 2);
    assert_eq!(channel_note(&notes[0]), (1, "nameA".to_string()));
    assert_eq!(channel_note(&notes[1]), (2, "nameB".to_string()));
}

#[test]
fn channel_reassignment_notifies_then_unsubscribe_silences() {
    let mut p = Player::new();
    p.load_movie(demo_movie());
    let _ = p.subscribe_to_channel_names();
    let notes = p.trigger_timeout(&"go".to_string());
    assert_eq!(notes.len(), 1);
    assert_eq!(channel_note(&notes[0]), (2, "nameC".to_string()));
    p.unsubscribe_from_channel_names();
    let notes = p.trigger_timeout(&"go".to_string());
    assert!(notes.is_empty());
}

#[test]
fn breakpoint_halts_resume_completes_and_persists() {
    let mut p = Player::new();
    p.load_movie(demo_movie());
    p.add_breakpoint("main".to_string(), "go".to_string(), 5);
    let _ = p.subscribe_to_channel_names();

    let notes = p.trigger_timeout(&"go".to_string());
    assert_eq!(notes.len(), 1);
    match &notes[0] {
        Notification::BreakpointHit(s, h, i) => {
            assert_eq!(s, "main");
            assert_eq!(h, "go");
            assert_eq!(*i, 5);
        },
        _ => panic!("expected a breakpoint hit"),
    }

    // while suspended, no bytecode progressed: channel 2 still shows nameB,
    // and another execution request is blocked
    let blocked = p.trigger_timeout(&"go".to_string());
    assert!(blocked.is_empty());
    // non-execution commands keep working while suspended
    p.set_stage_size(640, 480);
    assert_eq!(p.stage_width, 640);
    assert_eq!(p.stage_height, 480);

    // resume: the handler completes and the reassignment notification comes
    let notes = p.resume_breakpoint();
    assert_eq!(notes.len(), 1);
    assert_eq!(channel_note(&notes[0]), (2, "nameC".to_string()));

    // breakpoints persist across calls: a second run hits it again
    let notes = p.trigger_timeout(&"go".to_string());
    assert_eq!(notes.len(), 1);
    match &notes[0] {
        Notification::BreakpointHit(s, h, i) => {
            assert_eq!(s, "main");
            assert_eq!(h, "go");
            assert_eq!(*i, 5);
        },
        _ => panic!("expected the breakpoint to hit again"),
    }
    let _ = p.resume_breakpoint();
}

#[test]
fn reset_keeps_breakpoints_and_clears_content() {
    let mut p = Player::new();
    p.add_breakpoint("main".to_string(), "go".to_string(), 5);
    p.load_movie(demo_movie());
    let d = p.heap.allocate(Datum::Int(9));
    p.reset();
    assert!(p.breakpoints.contains(&"main".to_string(), &"go".to_string(), 5));
    assert_eq!(p.movie.score.channels.len(), 0);
    assert_eq!(p.movie.cast.entries.len(), 0);
    assert!(p.heap.resolve(d).is_none());
    let notes = p.load_movie(demo_movie());
    assert!(notes.is_empty());
    assert!(p.breakpoints.contains(&"main".to_string(), &"go".to_string(), 5));
    assert_eq!(p.movie.score.channels.len(), 2);
}

#[test]
fn malformed_movie_is_rejected_and_previous_kept() {
    let mut p = Player::new();
    p.load_movie(demo_movie());
    let bad = Movie {
        score: Score {
            channels: vec![
                Channel { number: 2, member: None },
                Channel { number: 2, member: None },
            ],
        },
        cast: CastLib { entries: vec![] },
        scripts: vec![],
    };
    let notes = p.load_movie(bad);
    assert_eq!(notes.len(), 1);
    assert!(matches!(notes[0], Notification::LoadFailed));
    assert_eq!(p.movie.score.channels.len(), 2);
    assert_eq!(p.movie.cast.entries.len(), 3);
}

#[test]
fn missing_handler_is_silent_noop() {
    let mut p = Player::new();
    p.load_movie(demo_movie());
    let notes = p.trigger_timeout(&"noSuchHandler".to_string());
    assert!(notes.is_empty());
}

#[test]
fn fault_on_unknown_channel_halts_with_context() {
    let mut p = Player::new();
    let mut m = demo_movie();
    m.scripts[0].handlers[0].code = vec![
        Instr::SetChannelMember { channel: 9, member: member(1, 1) },
        Instr::Nop,
    ];
    p.load_movie(m);
    let notes = p.trigger_timeout(&"go".to_string());
    assert_eq!(notes.len(), 1);
    match &notes[0] {
        Notification::InterpreterFault(s, h, i) => {
            assert_eq!(s, "main");
            assert_eq!(h, "go");
            assert_eq!(*i, 0);
        },
        _ => panic!("expected an interpreter fault"),
    }
    // the player stays dispatch-ready after the fault
    let notes = p.trigger_timeout(&"go".to_string());
    assert_eq!(notes.len(), 1);
}

#[test]
fn member_rename_notifies_subscribers_in_channel_order() {
    let mut p = Player::new();
    let a = member(1, 1);
    let mut m = demo_movie();
    // both channels show memberA, and the handler renames memberA
    m.score.channels[1].member = Some(a);
    m.scripts[0].handlers[0].code = vec![
        Instr::SetMemberName { member: a, name: "renamed".to_string() },
        Instr::Ret,
    ];
    p.load_movie(m);
    p.subscribe_to_member(a);
    let _ = p.subscribe_to_channel_names();
    let notes = p.trigger_timeout(&"go".to_string());
    assert_eq!(notes.len(), 3);
    match &notes[0] {
        Notification::MemberChanged(r, name) => {
            assert_eq!(*r, a);
            assert_eq!(name, "renamed");
        },
        _ => panic!("expected a member-changed notification first"),
    }
    assert_eq!(channel_note(&notes[1]), (1, "renamed".to_string()));
    assert_eq!(channel_note(&notes[2]), (2, "renamed".to_string()));

    // unsubscribed member: rename emits only the channel-name notifications
    p.unsubscribe_from_member(a);
    let notes = p.trigger_timeout(&"go".to_string());
    assert_eq!(notes.len(), 2);
    assert_eq!(channel_note(&notes[0]), (1, "renamed".to_string()));
}

#[test]
fn bitmap_hex_dump_and_no_data_answers() {
    let mut p = Player::new();
    p.load_movie(demo_movie());
    let notes = p.player_print_member_bitmap_hex(1, 3);
    match &notes[0] {
        Notification::MemberBitmapHex(r, Some(s)) => {
            assert_eq!(*r, member(1, 3));
            assert_eq!(s, "0fa000");
        },
        _ => panic!("expected a hex dump"),
    }
    // a text member and an unknown reference both answer absent
    let notes = p.player_print_member_bitmap_hex(1, 1);
    assert!(matches!(&notes[0], Notification::MemberBitmapHex(_, None)));
    let notes = p.player_print_member_bitmap_hex(4, 4);
    assert!(matches!(&notes[0], Notification::MemberBitmapHex(_, None)));
}

#[test]
fn request_datum_reports_without_mutating_counts() {
    let mut p = Player::new();
    let r = p.heap.allocate(Datum::Str("shared".to_string()));
    let notes = p.request_datum(r);
    match &notes[0] {
        Notification::DatumResolved(rr, Some(Datum::Str(s))) => {
            assert_eq!(*rr, r);
            assert_eq!(s, "shared");
        },
        _ => panic!("expected the value"),
    }
    // the read did not retain: one release frees it
    p.heap.release(r);
    let notes = p.request_datum(r);
    assert!(matches!(&notes[0], Notification::DatumResolved(_, None)));
    let bogus = DatumRef { index: 50, generation: 1 };
    let notes = p.request_datum(bogus);
    assert!(matches!(&notes[0], Notification::DatumResolved(_, None)));
}

#[test]
fn script_instance_snapshot_round_trip() {
    let mut p = Player::new();
    let id = p.instances.create("main".to_string()).unwrap();
    let notes = p.request_script_instance_snapshot(id);
    match &notes[0] {
        Notification::ScriptInstanceSnapshot(i, Some(s)) => {
            assert_eq!(*i, id);
            assert_eq!(s, "main");
        },
        _ => panic!("expected a live snapshot"),
    }
    p.instances.release(id);
    let notes = p.request_script_instance_snapshot(id);
    assert!(matches!(&notes[0], Notification::ScriptInstanceSnapshot(_, None)));
}

#[test]
fn pointer_coordinates_clamp_to_i16_space() {
    assert_eq!(clamp_to_i16(5), 5);
    assert_eq!(clamp_to_i16(-7), -7);
    assert_eq!(clamp_to_i16(100000), 32767);
    assert_eq!(clamp_to_i16(-100000), -32768);
    assert_eq!(clamp_to_i16(32767), 32767);
    assert_eq!(clamp_to_i16(-32768), -32768);
    assert_eq!(clamp_to_i16(32768), 32767);
}

#[test]
fn mouse_event_dispatches_by_name_convention() {
    let mut p = Player::new();
    let mut m = demo_movie();
    m.scripts[0].handlers[0].name = "mouseDown".to_string();
    p.load_movie(m);
    let _ = p.subscribe_to_channel_names();
    let notes = p.mouse_down(10, 20);
    assert_eq!(p.mouse_x, 10);
    assert_eq!(p.mouse_y, 20);
    assert_eq!(notes.len(), 1);
    assert_eq!(channel_note(&notes[0]), (2, "nameC".to_string()));
    // an event with no handler of its name is silent
    let notes = p.key_down("a".to_string(), 65);
    assert!(notes.is_empty());
}

#[test]
fn alert_hook_and_state_commands() {
    let mut p = Player::new();
    let notes = p.trigger_alert_hook();
    assert!(matches!(notes[0], Notification::AlertHook));
    p.set_base_path("movies/demo".to_string());
    assert_eq!(p.base_path, "movies/demo");
    p.play();
    assert!(p.playing);
    p.stop();
    assert!(!p.playing);
}

#[test]
fn dispatch_serializes_commands_in_order() {
    let mut p = Player::new();
    let notes = p.dispatch(Command::LoadMovie(demo_movie()));
    assert!(notes.is_empty());
    let notes = p.dispatch(Command::SubscribeToChannelNames);
    assert_eq!(notes.len(), 2);
    assert_eq!(channel_note(&notes[0]), (1, "nameA".to_string()));
    let notes = p.dispatch(Command::TimeoutTriggered("go".to_string()));
    assert_eq!(notes.len(), 1);
    assert_eq!(channel_note(&notes[0]), (2, "nameC".to_string()));
    let notes = p.dispatch(Command::SetStageSize(320, 240));
    assert!(notes.is_empty());
    assert_eq!(p.stage_width, 320);
    let notes = p.dispatch(Command::TriggerAlertHook);
    assert!(matches!(notes[0], Notification::AlertHook));
    let notes = p.dispatch(Command::MouseMove((40000_i32.min(32767) as i16, -5)));
    assert!(notes.is_empty());
    assert_eq!(p.mouse_x, 32767);
    assert_eq!(p.mouse_y, -5);
}

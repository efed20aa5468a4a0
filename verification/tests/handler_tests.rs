use kime_xim::{
    Config, ForwardResult, InputResult, InputResultType, InputStyle, KeyEvent, KimeData,
    KimeHandler, ServerCmd,
};

const KEY_PRESS_EVENT: u8 = 2;
const KEY_RELEASE_EVENT: u8 = 3;
const PREEDIT_POSITION: u32 = 0x0004;
const PREEDIT_CALLBACKS: u32 = 0x0002;
const STATUS_NOTHING: u32 = 0x0400;

fn overlay_handler() -> KimeHandler {
    KimeHandler::new(0, Config::new(String::from("fixed"), false))
}

fn overlay_ic(handler: &mut KimeHandler) -> KimeData {
    handler.new_ic_data(InputStyle::new(PREEDIT_POSITION | STATUS_NOTHING))
}

fn inline_ic(handler: &mut KimeHandler) -> KimeData {
    handler.new_ic_data(InputStyle::new(PREEDIT_CALLBACKS | STATUS_NOTHING))
}

fn result(ty: InputResultType, char1: char, char2: char) -> InputResult {
    InputResult { ty, char1, char2 }
}

/// Drives the context into overlay composition: one key yielding a preedit,
/// then the window identifier reported back by the event loop.
fn compose(handler: &mut KimeHandler, ic: &mut KimeData, window: u32, ch: char) {
    let out = handler.handle_key_result(ic, result(InputResultType::Preedit, ch, ' '));
    assert!(out.consumed);
    assert_eq!(out.cmds, vec![ServerCmd::CreateWindow { ch }]);
    handler.window_created(ic, window, ch);
}

#[test]
fn bypass_forwards_and_changes_nothing() {
    let mut handler = overlay_handler();
    let mut ic = overlay_ic(&mut handler);
    let out = handler.handle_key_result(&mut ic, result(InputResultType::Bypass, ' ', ' '));
    assert!(!out.consumed);
    assert!(out.cmds.is_empty());
    assert_eq!(ic.pe, None);
    assert_eq!(ic.engine.preedit, None);
    assert_eq!(handler.preedit_window_count(), 0);
}

#[test]
fn consume_swallows_and_changes_nothing() {
    let mut handler = overlay_handler();
    let mut ic = overlay_ic(&mut handler);
    compose(&mut handler, &mut ic, 7, 'ㄱ');
    let out = handler.handle_key_result(&mut ic, result(InputResultType::Consume, ' ', ' '));
    assert!(out.consumed);
    assert!(out.cmds.is_empty());
    assert_eq!(ic.pe, Some(7));
    assert_eq!(ic.engine.preedit, Some('ㄱ'));
    assert_eq!(handler.window_char(7), Some('ㄱ'));
}

#[test]
fn clear_preedit_destroys_window_and_goes_idle() {
    let mut handler = overlay_handler();
    let mut ic = overlay_ic(&mut handler);
    compose(&mut handler, &mut ic, 7, 'ㄱ');
    let out = handler.handle_key_result(&mut ic, result(InputResultType::ClearPreedit, ' ', ' '));
    assert!(out.consumed);
    assert_eq!(out.cmds, vec![ServerCmd::CleanWindow { window: 7 }]);
    assert_eq!(ic.pe, None);
    assert_eq!(ic.engine.preedit, None);
    assert_eq!(handler.preedit_window_count(), 0);
}

#[test]
fn commit_bypass_commits_clears_then_forwards() {
    let mut handler = overlay_handler();
    let mut ic = overlay_ic(&mut handler);
    compose(&mut handler, &mut ic, 7, 'ㄱ');
    let out = handler.handle_key_result(&mut ic, result(InputResultType::CommitBypass, '가', ' '));
    assert!(!out.consumed);
    assert_eq!(
        out.cmds,
        vec![
            ServerCmd::Commit { ch: '가' },
            ServerCmd::CleanWindow { window: 7 },
        ]
    );
    assert_eq!(ic.pe, None);
    assert_eq!(handler.preedit_window_count(), 0);
}

#[test]
fn commit_commits_exactly_once_and_clears() {
    let mut handler = overlay_handler();
    let mut ic = overlay_ic(&mut handler);
    compose(&mut handler, &mut ic, 7, 'ㄱ');
    let out = handler.handle_key_result(&mut ic, result(InputResultType::Commit, '가', ' '));
    assert!(out.consumed);
    assert_eq!(
        out.cmds,
        vec![
            ServerCmd::Commit { ch: '가' },
            ServerCmd::CleanWindow { window: 7 },
        ]
    );
    assert_eq!(ic.engine.preedit, None);
    assert_eq!(handler.preedit_window_count(), 0);
}

#[test]
fn commit_commit_commits_both_units_in_order() {
    let mut handler = overlay_handler();
    let mut ic = overlay_ic(&mut handler);
    compose(&mut handler, &mut ic, 7, 'ㄱ');
    let out =
        handler.handle_key_result(&mut ic, result(InputResultType::CommitCommit, '가', '나'));
    assert!(out.consumed);
    assert_eq!(
        out.cmds,
        vec![
            ServerCmd::Commit { ch: '가' },
            ServerCmd::Commit { ch: '나' },
            ServerCmd::CleanWindow { window: 7 },
        ]
    );
    assert_eq!(handler.preedit_window_count(), 0);
}

#[test]
fn scenario_first_preedit_creates_window() {
    let mut handler = overlay_handler();
    let mut ic = overlay_ic(&mut handler);
    assert_eq!(handler.preedit_window_count(), 0);
    let out = handler.handle_key_result(&mut ic, result(InputResultType::Preedit, 'ㄱ', ' '));
    assert!(out.consumed);
    assert_eq!(out.cmds, vec![ServerCmd::CreateWindow { ch: 'ㄱ' }]);
    handler.window_created(&mut ic, 42, 'ㄱ');
    assert_eq!(handler.preedit_window_count(), 1);
    assert_eq!(ic.pe, Some(42));
    assert_eq!(handler.window_char(42), Some('ㄱ'));
}

#[test]
fn scenario_commit_preedit_commits_and_redraws_window() {
    let mut handler = overlay_handler();
    let mut ic = overlay_ic(&mut handler);
    compose(&mut handler, &mut ic, 42, 'ㄱ');
    let out =
        handler.handle_key_result(&mut ic, result(InputResultType::CommitPreedit, '가', 'ㄴ'));
    assert!(out.consumed);
    assert_eq!(
        out.cmds,
        vec![
            ServerCmd::Commit { ch: '가' },
            ServerCmd::SetPreedit { window: 42, ch: 'ㄴ' },
        ]
    );
    assert_eq!(handler.preedit_window_count(), 1);
    assert_eq!(handler.window_char(42), Some('ㄴ'));
    assert_eq!(ic.engine.preedit, Some('ㄴ'));
}

#[test]
fn scenario_unset_focus_flushes_and_destroys_window() {
    let mut handler = overlay_handler();
    let mut ic = overlay_ic(&mut handler);
    compose(&mut handler, &mut ic, 42, 'ㄴ');
    assert_eq!(handler.preedit_window_count(), 1);
    let cmds = handler.handle_unset_focus(&mut ic);
    assert_eq!(
        cmds,
        vec![
            ServerCmd::CleanWindow { window: 42 },
            ServerCmd::Commit { ch: 'ㄴ' },
        ]
    );
    assert_eq!(handler.preedit_window_count(), 0);
    assert_eq!(ic.pe, None);
    assert_eq!(ic.engine.preedit, None);
}

#[test]
fn scenario_modifier_key_flushes_then_forwards() {
    let mut handler = overlay_handler();
    let mut ic = overlay_ic(&mut handler);
    compose(&mut handler, &mut ic, 42, 'ㄴ');
    // shift (0x1) together with control (0x4) while composing
    let xev = KeyEvent { response_type: KEY_PRESS_EVENT, detail: 36, state: 0x5 };
    match handler.handle_forward_event(&mut ic, xev) {
        ForwardResult::Flushed { cmds } => {
            assert_eq!(
                cmds,
                vec![
                    ServerCmd::CleanWindow { window: 42 },
                    ServerCmd::Commit { ch: 'ㄴ' },
                ]
            );
        }
        other => panic!("expected a flush, got {:?}", other),
    }
    assert_eq!(ic.engine.preedit, None);
    assert_eq!(ic.pe, None);
    assert_eq!(handler.preedit_window_count(), 0);
}

#[test]
fn lone_shift_consults_the_engine() {
    let mut handler = overlay_handler();
    let mut ic = overlay_ic(&mut handler);
    let xev = KeyEvent { response_type: KEY_PRESS_EVENT, detail: 52, state: 0x1 };
    match handler.handle_forward_event(&mut ic, xev) {
        ForwardResult::Consult { hardware_code, state } => {
            assert_eq!(hardware_code, 52);
            assert_eq!(state, 1);
        }
        other => panic!("expected an engine consultation, got {:?}", other),
    }
}

#[test]
fn key_releases_change_nothing() {
    let mut handler = overlay_handler();
    let mut ic = overlay_ic(&mut handler);
    compose(&mut handler, &mut ic, 9, 'ㅂ');
    for detail in [10u8, 11, 12] {
        let xev = KeyEvent { response_type: KEY_RELEASE_EVENT, detail, state: 0x5 };
        assert!(matches!(
            handler.handle_forward_event(&mut ic, xev),
            ForwardResult::Skip
        ));
    }
    assert_eq!(ic.pe, Some(9));
    assert_eq!(ic.engine.preedit, Some('ㅂ'));
    assert_eq!(handler.preedit_window_count(), 1);
    assert_eq!(handler.window_char(9), Some('ㅂ'));
}

#[test]
fn destroy_ic_removes_registry_entry_without_flush() {
    let mut handler = overlay_handler();
    let mut ic = overlay_ic(&mut handler);
    compose(&mut handler, &mut ic, 13, 'ㅈ');
    assert!(handler.has_window(13));
    let former = ic.pe;
    let cmds = handler.handle_destory_ic(ic);
    assert_eq!(cmds, vec![ServerCmd::CleanWindow { window: 13 }]);
    assert_eq!(former, Some(13));
    assert!(!handler.has_window(13));
    assert_eq!(handler.preedit_window_count(), 0);
}

#[test]
fn reset_ic_replies_with_flushed_text_and_clears_window() {
    let mut handler = overlay_handler();
    let mut ic = overlay_ic(&mut handler);
    compose(&mut handler, &mut ic, 21, 'ㄴ');
    let r = handler.handle_reset_ic(&mut ic);
    assert_eq!(r.reply, "ㄴ");
    assert_eq!(r.cmds, vec![ServerCmd::CleanWindow { window: 21 }]);
    assert_eq!(ic.pe, None);
    assert_eq!(handler.preedit_window_count(), 0);
}

#[test]
fn reset_ic_twice_never_commits_twice() {
    let mut handler = overlay_handler();
    let mut ic = overlay_ic(&mut handler);
    compose(&mut handler, &mut ic, 21, 'ㄷ');
    let first = handler.handle_reset_ic(&mut ic);
    assert_eq!(first.reply, "ㄷ");
    let second = handler.handle_reset_ic(&mut ic);
    assert_eq!(second.reply, "");
    assert!(second.cmds.is_empty());
}

#[test]
fn inline_preedit_draws_through_the_client() {
    let mut handler = overlay_handler();
    let mut ic = inline_ic(&mut handler);
    let out = handler.handle_key_result(&mut ic, result(InputResultType::Preedit, 'ㄱ', ' '));
    assert!(out.consumed);
    assert_eq!(out.cmds, vec![ServerCmd::PreeditDraw { ch: 'ㄱ' }]);
    assert_eq!(ic.pe, None);
    assert_eq!(handler.preedit_window_count(), 0);
}

#[test]
fn inline_commit_preedit_commits_then_draws() {
    let mut handler = overlay_handler();
    let mut ic = inline_ic(&mut handler);
    handler.handle_key_result(&mut ic, result(InputResultType::Preedit, 'ㄱ', ' '));
    let out =
        handler.handle_key_result(&mut ic, result(InputResultType::CommitPreedit, '가', 'ㄴ'));
    assert!(out.consumed);
    assert_eq!(
        out.cmds,
        vec![
            ServerCmd::Commit { ch: '가' },
            ServerCmd::PreeditDraw { ch: 'ㄴ' },
        ]
    );
    assert_eq!(handler.preedit_window_count(), 0);
}

#[test]
fn stray_expose_and_configure_are_benign() {
    let mut handler = overlay_handler();
    let mut ic = overlay_ic(&mut handler);
    compose(&mut handler, &mut ic, 8, 'ㅁ');
    assert!(handler.expose(8));
    assert!(handler.configure_notify(8));
    assert!(!handler.expose(9));
    assert!(!handler.configure_notify(9));
    assert!(!handler.expose(0));
    assert!(!handler.configure_notify(0));
}

#[test]
fn create_ic_registers_key_event_mask() {
    let mut handler = overlay_handler();
    let mut ic = overlay_ic(&mut handler);
    let cmds = handler.handle_create_ic(&mut ic);
    assert_eq!(
        cmds,
        vec![ServerCmd::SetEventMask { forward_mask: 0x3, sync_mask: 0 }]
    );
}

#[test]
fn seven_styles_are_offered() {
    let handler = overlay_handler();
    let styles = handler.input_styles();
    assert_eq!(styles.len(), 7);
    assert_eq!(styles[0].bits, 0x0008 | 0x0400);
    assert_eq!(styles[1].bits, 0x0004 | 0x0100);
    assert_eq!(styles[2].bits, 0x0004 | 0x0400);
    assert_eq!(styles[3].bits, 0x0004 | 0x0800);
    assert_eq!(styles[4].bits, 0x0002 | 0x0100);
    assert_eq!(styles[5].bits, 0x0002 | 0x0400);
    assert_eq!(styles[6].bits, 0x0002 | 0x0800);
}

#[test]
fn full_overlay_session() {
    let mut handler = overlay_handler();
    let mut ic = overlay_ic(&mut handler);

    // first key: a new window is created, displaying the first unit
    let out = handler.handle_key_result(&mut ic, result(InputResultType::Preedit, 'ㄱ', ' '));
    assert_eq!(out.cmds, vec![ServerCmd::CreateWindow { ch: 'ㄱ' }]);
    handler.window_created(&mut ic, 42, 'ㄱ');
    assert_eq!(handler.preedit_window_count(), 1);

    // next key: one syllable commits, the window shows the next unit
    let out =
        handler.handle_key_result(&mut ic, result(InputResultType::CommitPreedit, '가', 'ㄴ'));
    assert_eq!(
        out.cmds,
        vec![
            ServerCmd::Commit { ch: '가' },
            ServerCmd::SetPreedit { window: 42, ch: 'ㄴ' },
        ]
    );
    assert_eq!(handler.preedit_window_count(), 1);
    assert_eq!(handler.window_char(42), Some('ㄴ'));

    // focus leaves: the buffered unit commits and the window is destroyed
    let cmds = handler.handle_unset_focus(&mut ic);
    assert_eq!(
        cmds,
        vec![
            ServerCmd::CleanWindow { window: 42 },
            ServerCmd::Commit { ch: 'ㄴ' },
        ]
    );
    assert_eq!(handler.preedit_window_count(), 0);
    assert_eq!(ic.pe, None);
    assert_eq!(ic.engine.preedit, None);
}

#[test]
fn config_snapshot_hands_back_its_values() {
    let config = Config::new(String::from("terminus"), true);
    assert_eq!(config.xim_font_name(), "terminus");
    assert!(config.gtk_commit_english());
    let handler = KimeHandler::new(3, config);
    assert_eq!(handler.screen_num(), 3);
    assert_eq!(handler.config().xim_font_name(), "terminus");
}

use serde_json::Value;
use std::sync::Arc;
use xi_tabs::session_id::{id_string, parse_id};
use xi_tabs::tabs::{Dispatch, Notification, PluginCtx, TabCommand, Tabs};

#[derive(Default)]
struct Doc {
    lines: Vec<String>,
}

#[derive(Clone, Debug, PartialEq)]
struct Peer(u32);

fn new_tab(tabs: &mut Tabs<Doc>, peer: &Peer) -> String {
    match tabs.do_rpc(TabCommand::<u32>::NewTab, peer) {
        Dispatch::Reply(Some(Value::String(s))) => s,
        _ => panic!("new tab did not answer with its id"),
    }
}

fn delete_cmd(name: &str) -> TabCommand<'_, u32> {
    TabCommand::DeleteTab { tab_name: name }
}

fn is_empty_reply(d: &Dispatch<'_, Doc, Peer, u32>) -> bool {
    matches!(d, Dispatch::Reply(None))
}

#[test]
fn ids_count_up_from_zero() {
    let peer = Peer(0);
    let mut tabs: Tabs<Doc> = Tabs::new();
    assert_eq!(new_tab(&mut tabs, &peer), "0");
    assert_eq!(new_tab(&mut tabs, &peer), "1");
    assert_eq!(new_tab(&mut tabs, &peer), "2");
}

#[test]
fn ids_are_not_reused_after_delete() {
    let peer = Peer(0);
    let mut tabs: Tabs<Doc> = Tabs::new();
    assert_eq!(new_tab(&mut tabs, &peer), "0");
    assert_eq!(new_tab(&mut tabs, &peer), "1");
    let d = tabs.do_rpc(delete_cmd("1"), &peer);
    assert!(matches!(d, Dispatch::Reply(None)));
    assert_eq!(new_tab(&mut tabs, &peer), "2");
}

#[test]
fn delete_missing_is_noop() {
    let peer = Peer(0);
    let mut tabs: Tabs<Doc> = Tabs::new();
    assert_eq!(new_tab(&mut tabs, &peer), "0");
    let d = tabs.do_rpc(delete_cmd("7"), &peer);
    assert!(matches!(d, Dispatch::Reply(None)));
    let d = tabs.do_rpc(delete_cmd("0"), &peer);
    assert!(matches!(d, Dispatch::Reply(None)));
    let d = tabs.do_rpc(delete_cmd("0"), &peer);
    assert!(matches!(d, Dispatch::Reply(None)));
    assert_eq!(new_tab(&mut tabs, &peer), "1");
}

#[test]
fn edit_reaches_live_tab() {
    let peer = Peer(3);
    let mut tabs: Tabs<Doc> = Tabs::new();
    new_tab(&mut tabs, &peer);
    let d = tabs.do_rpc(TabCommand::Edit { tab_name: "0", edit_command: 42u32 }, &peer);
    match d {
        Dispatch::Edit { edit_command, ctx } => {
            assert_eq!(edit_command, 42);
            assert_eq!(*ctx.rpc_peer(), Peer(3));
            let doc = ctx.get_self_ref();
            doc.lock().unwrap().lines.push("hello".to_string());
            let again = ctx.get_self_ref();
            assert!(Arc::ptr_eq(&doc, &again));
            assert_eq!(again.lock().unwrap().lines, vec!["hello".to_string()]);
        }
        Dispatch::Reply(_) => panic!("edit to a live tab was not routed"),
    }
}

#[test]
fn edit_with_non_canonical_id_is_dropped() {
    let peer = Peer(0);
    let mut tabs: Tabs<Doc> = Tabs::new();
    new_tab(&mut tabs, &peer);
    for name in ["00", "", "+0", " 0", "x"] {
        let d = tabs.do_rpc(TabCommand::Edit { tab_name: name, edit_command: 1u32 }, &peer);
        assert!(is_empty_reply(&d));
    }
}

#[test]
fn edit_to_deleted_tab_is_dropped() {
    let peer = Peer(0);
    let mut tabs: Tabs<Doc> = Tabs::new();
    assert_eq!(new_tab(&mut tabs, &peer), "0");
    assert_eq!(new_tab(&mut tabs, &peer), "1");
    tabs.do_rpc(delete_cmd("0"), &peer);
    let d = tabs.do_rpc(TabCommand::Edit { tab_name: "0", edit_command: 5u32 }, &peer);
    assert!(is_empty_reply(&d));
    let d = tabs.do_rpc(TabCommand::Edit { tab_name: "0", edit_command: 5u32 }, &peer);
    assert!(is_empty_reply(&d));
    let d = tabs.do_rpc(TabCommand::Edit { tab_name: "1", edit_command: 5u32 }, &peer);
    assert!(matches!(d, Dispatch::Edit { .. }));
}

#[test]
fn kill_ring_is_shared_between_tabs() {
    let peer = Peer(0);
    let mut tabs: Tabs<Doc> = Tabs::new();
    new_tab(&mut tabs, &peer);
    new_tab(&mut tabs, &peer);
    match tabs.do_rpc(TabCommand::Edit { tab_name: "0", edit_command: 0u32 }, &peer) {
        Dispatch::Edit { ctx, .. } => {
            assert_eq!(ctx.get_kill_ring(), "");
            ctx.set_kill_ring("V".to_string());
        }
        Dispatch::Reply(_) => panic!("edit was not routed"),
    }
    match tabs.do_rpc(TabCommand::Edit { tab_name: "1", edit_command: 0u32 }, &peer) {
        Dispatch::Edit { ctx, .. } => assert_eq!(ctx.get_kill_ring(), "V"),
        Dispatch::Reply(_) => panic!("edit was not routed"),
    }
}

#[test]
fn two_sessions_delete_write_read_scenario() {
    let peer = Peer(0);
    let mut tabs: Tabs<Doc> = Tabs::new();
    assert_eq!(new_tab(&mut tabs, &peer), "0");
    assert_eq!(new_tab(&mut tabs, &peer), "1");
    tabs.do_rpc(delete_cmd("0"), &peer);
    let d = tabs.do_rpc(TabCommand::Edit { tab_name: "0", edit_command: 0u32 }, &peer);
    assert!(is_empty_reply(&d));
    match tabs.do_rpc(TabCommand::Edit { tab_name: "1", edit_command: 0u32 }, &peer) {
        Dispatch::Edit { ctx, .. } => ctx.set_kill_ring("X".to_string()),
        Dispatch::Reply(_) => panic!("tab 1 should be live"),
    }
    assert_eq!(new_tab(&mut tabs, &peer), "2");
    match tabs.do_rpc(TabCommand::Edit { tab_name: "2", edit_command: 0u32 }, &peer) {
        Dispatch::Edit { ctx, .. } => assert_eq!(ctx.get_kill_ring(), "X"),
        Dispatch::Reply(_) => panic!("tab 2 should be live"),
    }
}

#[test]
fn update_notification_names_tab() {
    let peer = Peer(0);
    let mut tabs: Tabs<Doc> = Tabs::new();
    new_tab(&mut tabs, &peer);
    new_tab(&mut tabs, &peer);
    match tabs.do_rpc(TabCommand::Edit { tab_name: "1", edit_command: 0u32 }, &peer) {
        Dispatch::Edit { ctx, .. } => {
            let n = ctx.update_tab(&Value::Bool(true));
            assert_eq!(n.method(), "update");
            match n {
                Notification::Update { tab, update } => {
                    assert_eq!(tab, "1");
                    assert_eq!(update, Value::Bool(true));
                }
                _ => panic!("wrong notification"),
            }
        }
        Dispatch::Reply(_) => panic!("edit was not routed"),
    }
}

#[test]
fn plugin_connect_sends_one_ping_with_size() {
    let peer = Peer(9);
    let mut tabs: Tabs<Doc> = Tabs::new();
    new_tab(&mut tabs, &peer);
    let mut pctx: PluginCtx<Doc, Peer, Peer> =
        match tabs.do_rpc(TabCommand::Edit { tab_name: "0", edit_command: 0u32 }, &peer) {
            Dispatch::Edit { ctx, .. } => ctx.to_plugin_ctx(),
            Dispatch::Reply(_) => panic!("edit was not routed"),
        };
    assert!(pctx.plugin_peer().is_none());
    assert_eq!(*pctx.main_peer(), Peer(9));
    let n = pctx.on_plugin_connect(Peer(11), 1234);
    assert_eq!(n.method(), "ping_from_editor");
    assert!(matches!(n, Notification::Ping { buf_size: 1234 }));
    assert_eq!(*pctx.plugin_peer(), Some(Peer(11)));
}

#[test]
fn plugin_keeps_document_after_delete() {
    let peer = Peer(0);
    let mut tabs: Tabs<Doc> = Tabs::new();
    new_tab(&mut tabs, &peer);
    let pctx: PluginCtx<Doc, Peer, Peer> =
        match tabs.do_rpc(TabCommand::Edit { tab_name: "0", edit_command: 0u32 }, &peer) {
            Dispatch::Edit { ctx, .. } => {
                ctx.get_self_ref().lock().unwrap().lines.push("kept".to_string());
                ctx.to_plugin_ctx()
            }
            Dispatch::Reply(_) => panic!("edit was not routed"),
        };
    tabs.do_rpc(delete_cmd("0"), &peer);
    assert_eq!(pctx.editor().lock().unwrap().lines, vec!["kept".to_string()]);
}

#[test]
fn alert_carries_message() {
    let peer = Peer(0);
    let mut tabs: Tabs<Doc> = Tabs::new();
    new_tab(&mut tabs, &peer);
    let pctx: PluginCtx<Doc, Peer, Peer> =
        match tabs.do_rpc(TabCommand::Edit { tab_name: "0", edit_command: 0u32 }, &peer) {
            Dispatch::Edit { ctx, .. } => ctx.to_plugin_ctx(),
            Dispatch::Reply(_) => panic!("edit was not routed"),
        };
    let n = pctx.alert("disk full");
    assert_eq!(n.method(), "alert");
    match n {
        Notification::Alert { msg } => assert_eq!(msg, "disk full"),
        _ => panic!("wrong notification"),
    }
}

#[test]
fn id_text_round_trip() {
    assert_eq!(id_string(0), "0");
    assert_eq!(id_string(7), "7");
    assert_eq!(id_string(10), "10");
    assert_eq!(id_string(1203), "1203");
    assert_eq!(id_string(usize::MAX), usize::MAX.to_string());
    assert_eq!(parse_id("0"), Some(0));
    assert_eq!(parse_id("1203"), Some(1203));
    assert_eq!(parse_id(&usize::MAX.to_string()), Some(usize::MAX));
    assert_eq!(parse_id("007"), None);
    assert_eq!(parse_id(""), None);
    assert_eq!(parse_id("12a"), None);
    assert_eq!(parse_id("-1"), None);
    assert_eq!(parse_id("99999999999999999999999999"), None);
}

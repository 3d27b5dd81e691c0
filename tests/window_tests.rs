use std::cell::RefCell;
use std::rc::Rc;
use wbgui::widget::{ClickOutcome, WbButton, WbItem, WbKind, WbTextBox, ID_BUTTON, ID_TBOX};
use wbgui::window::{CrtWndArgs, WndAction, WndBase, WndEvent};

struct Counter {
    cnt: i32,
}

fn count_up(c: &mut Counter) {
    c.cnt += 1;
}

type Handler = fn(&mut Counter);

fn owner() -> Rc<RefCell<Counter>> {
    Rc::new(RefCell::new(Counter { cnt: 0 }))
}

fn press(wnd: &WndBase<Counter, Handler>, source: usize) -> WndAction {
    wnd.wnd_proc(WndEvent::Command { id: ID_BUTTON, source })
}

#[test]
fn count_up_scenario() {
    let counter = owner();
    let mut wnd: WndBase<Counter, Handler> = WndBase::new();
    wnd.yield_WbButton(320, 10, "Count up").set_handler(&counter, count_up);
    wnd.yield_WbTextBox(10, 10, 300, 400);
    let children = wnd.attach_hwnd(0x5000);
    assert_eq!(children.len(), 2);
    for _ in 0..3 {
        assert_eq!(press(&wnd, children[0].user_data), WndAction::Clicked(ClickOutcome::Invoked));
    }
    assert_eq!(counter.borrow().cnt, 3);
    let tb = wnd.wb_items[1].wb_item_base();
    assert_eq!((tb.x, tb.y, tb.width, tb.height), (Some(10), Some(10), Some(300), Some(400)));
    assert_eq!(tb.DBG_description, "None");
}

#[test]
fn handler_is_bound_once() {
    let counter = owner();
    let mut btn: WbButton<Counter, Handler> = WbButton::new(0, 0, "b");
    assert!(!btn.has_handler());
    assert!(!btn.is_activatable());
    btn.set_handler(&counter, count_up);
    // a second binding is now refused: callers test this and abort
    assert!(btn.has_handler());
    assert!(btn.is_activatable());
    assert_eq!(counter.borrow().cnt, 0);
    assert_eq!(btn.on_click(), ClickOutcome::Invoked);
    assert_eq!(counter.borrow().cnt, 1);
    assert!(btn.has_handler());
    assert_eq!(btn.on_click(), ClickOutcome::Invoked);
    assert_eq!(counter.borrow().cnt, 2);
}

#[test]
fn double_handler_refused_before_native_creation() {
    let counter = owner();
    let mut wnd: WndBase<Counter, Handler> = WndBase::new();
    let btn = wnd.yield_WbButton(0, 0, "twice");
    assert!(!btn.has_handler());
    btn.set_handler(&counter, count_up);
    // the second binding is refused while no native window exists yet
    assert!(btn.has_handler());
    assert_eq!(wnd.hwnd(), 0);
    assert_eq!(counter.borrow().cnt, 0);
}

#[test]
fn children_created_once_each_in_order() {
    let mut wnd: WndBase<Counter, Handler> = WndBase::new();
    wnd.yield_WbTextBox(1, 2, 3, 4);
    wnd.yield_WbButton(5, 6, "ok").wb_item_base().set_width(150);
    wnd.yield_WbTextBox(7, 8, 9, 10);
    assert_eq!(wnd.wb_items.len(), 3);
    let children = wnd.attach_hwnd(77);
    assert_eq!(wnd.hwnd(), 77);
    assert_eq!(children.len(), 3);
    let kinds: Vec<WbKind> = children.iter().map(|c| c.kind).collect();
    assert_eq!(kinds, vec![WbKind::TextBox, WbKind::Button, WbKind::TextBox]);
    for (i, c) in children.iter().enumerate() {
        assert_eq!(c.user_data, i + 1);
        assert_eq!(c.hwnd_parent, 77);
    }
    let b = &children[1];
    assert_eq!((b.left, b.top, b.width, b.height), (5, 6, 150, 25));
    assert_eq!(b.ctrl_id, ID_BUTTON);
    assert_eq!(b.caption, vec![0x6f, 0x6b, 0]);
    let t = &children[2];
    assert_eq!((t.left, t.top, t.width, t.height), (7, 8, 9, 10));
    assert_eq!(t.ctrl_id, ID_TBOX);
    assert_eq!(t.caption, vec![0u16]);
}

#[test]
fn no_widgets_no_children() {
    let mut wnd: WndBase<Counter, Handler> = WndBase::new();
    assert!(wnd.attach_hwnd(1).is_empty());
    assert_eq!(wnd.hwnd(), 1);
}

#[test]
fn command_routed_only_for_button_id() {
    let counter = owner();
    let mut wnd: WndBase<Counter, Handler> = WndBase::new();
    wnd.yield_WbButton(0, 0, "b").set_handler(&counter, count_up);
    wnd.yield_WbTextBox(0, 30, 10, 10);
    assert_eq!(wnd.wnd_proc(WndEvent::Command { id: ID_TBOX, source: 1 }), WndAction::Ignored);
    assert_eq!(wnd.wnd_proc(WndEvent::Command { id: 0, source: 1 }), WndAction::Ignored);
    assert_eq!(press(&wnd, 0), WndAction::Ignored);
    assert_eq!(press(&wnd, 3), WndAction::Ignored);
    assert_eq!(press(&wnd, usize::MAX), WndAction::Ignored);
    assert_eq!(counter.borrow().cnt, 0);
    assert_eq!(press(&wnd, 2), WndAction::Clicked(ClickOutcome::Ignored));
    assert_eq!(press(&wnd, 1), WndAction::Clicked(ClickOutcome::Invoked));
    assert_eq!(counter.borrow().cnt, 1);
}

#[test]
fn button_without_handler_reports_it() {
    let mut wnd: WndBase<Counter, Handler> = WndBase::new();
    wnd.yield_WbButton(0, 0, "bare");
    assert_eq!(press(&wnd, 1), WndAction::NoHandler);
    assert_eq!(press(&wnd, 0), WndAction::Ignored);
}

#[test]
fn busy_owner_is_not_entered() {
    let counter = owner();
    let mut wnd: WndBase<Counter, Handler> = WndBase::new();
    wnd.yield_WbButton(0, 0, "b").set_handler(&counter, count_up);
    let held = counter.borrow_mut();
    assert_eq!(press(&wnd, 1), WndAction::Clicked(ClickOutcome::Busy));
    drop(held);
    assert_eq!(counter.borrow().cnt, 0);
}

#[test]
fn destroy_posts_quit() {
    let empty: WndBase<Counter, Handler> = WndBase::new();
    assert_eq!(empty.wnd_proc(WndEvent::Destroy), WndAction::PostQuit);
    let mut full: WndBase<Counter, Handler> = WndBase::new();
    full.yield_WbButton(0, 0, "b");
    full.yield_WbTextBox(0, 0, 1, 1);
    assert_eq!(full.wnd_proc(WndEvent::Destroy), WndAction::PostQuit);
}

#[test]
fn other_notifications_go_to_default() {
    let wnd: WndBase<Counter, Handler> = WndBase::new();
    assert_eq!(wnd.wnd_proc(WndEvent::Other), WndAction::Default);
}

#[test]
fn fluent_setters() {
    let mut wnd: WndBase<Counter, Handler> = WndBase::new();
    let btn = wnd.yield_WbButton(320, 10, "Count up");
    assert_eq!(btn.caption, "Count up");
    assert!(btn.tgt_obj.is_none() && btn.tgt_fn.is_none());
    btn.wb_item_base().set_width(150).set_DBG_description("count button");
    let base = wnd.wb_items[0].wb_item_base();
    assert_eq!(base.width, Some(150));
    assert_eq!(base.height, Some(25));
    assert_eq!(base.DBG_description, "count button");
}

#[test]
fn text_box_takes_no_activation() {
    let tb = WbTextBox::new(1, 2, 3, 4);
    assert_eq!(tb.on_click(), ClickOutcome::Ignored);
    let args = tb.on_crt_parent_wnd_rsc(9, 8);
    assert_eq!(args.kind, WbKind::TextBox);
    assert_eq!((args.user_data, args.hwnd_parent), (9, 8));
}

#[test]
fn window_args_defaults() {
    let a = CrtWndArgs::new(vec![65, 0], vec![66, 0], 7);
    assert_eq!((a.left, a.top, a.width, a.height), (100, 100, 500, 500));
    assert_eq!((a.ex_style, a.style, a.hwnd_parent, a.hmenu), (0, 7, 0, 0));
    assert_eq!(a.class_name, vec![65, 0]);
    assert_eq!(a.window_title, vec![66, 0]);
}

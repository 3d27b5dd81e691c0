//! The part of a window that the toolkit owns: its native handle, the ordered
//! widgets on it, and the routing of native notifications to them.
use vstd::prelude::*;
use crate::widget::{ChildWndArgs, ClickOutcome, WbButton, WbItem, WbItemBase, WbTextBox, ID_BUTTON};

verus! {

/// The parameters a top-level window is created with. Hooks may change them
/// before the native window exists.
pub struct CrtWndArgs {
    pub ex_style: u32,
    pub class_name: Vec<u16>,
    pub window_title: Vec<u16>,
    pub style: u32,
    pub left: i32,
    pub top: i32,
    pub width: i32,
    pub height: i32,
    pub hwnd_parent: usize,
    pub hmenu: usize,
}

impl CrtWndArgs {
    /// A 500 by 500 window at (100, 100) of the given class, title and style,
    /// with no extended style, no parent and no menu.
    pub fn new(class_name: Vec<u16>, wnd_title: Vec<u16>, style: u32) -> (r: Self)
        ensures
            r.ex_style == 0,
            r.class_name@ == class_name@,
            r.window_title@ == wnd_title@,
            r.style == style,
            r.left == 100,
            r.top == 100,
            r.width == 500,
            r.height == 500,
            r.hwnd_parent == 0,
            r.hmenu == 0,
    {
        CrtWndArgs {
            ex_style: 0,
            class_name,
            window_title: wnd_title,
            style,
            left: 100,
            top: 100,
            width: 500,
            height: 500,
            hwnd_parent: 0,
            hmenu: 0,
        }
    }
}

/// A widget held by a window: one of the kinds the toolkit knows.
#[verifier::reject_recursive_types(T)]
pub enum WbWidget<T, F> {
    Button(WbButton<T, F>),
    TextBox(WbTextBox),
}

impl<T, F: Fn(&mut T)> WbItem for WbWidget<T, F> {
    open spec fn base_view(&self) -> WbItemBase {
        match self {
            WbWidget::Button(b) => b.base_view(),
            WbWidget::TextBox(t) => t.base_view(),
        }
    }

    open spec fn with_base(&self, base: WbItemBase) -> Self {
        match self {
            WbWidget::Button(b) => WbWidget::Button(b.with_base(base)),
            WbWidget::TextBox(t) => WbWidget::TextBox(t.with_base(base)),
        }
    }

    open spec fn child_ok(&self, ptr_wb_item: usize, hwnd_parent: usize, r: ChildWndArgs) -> bool {
        match self {
            WbWidget::Button(b) => b.child_ok(ptr_wb_item, hwnd_parent, r),
            WbWidget::TextBox(t) => t.child_ok(ptr_wb_item, hwnd_parent, r),
        }
    }

    open spec fn click_ok(&self, r: ClickOutcome) -> bool {
        match self {
            WbWidget::Button(b) => b.click_ok(r),
            WbWidget::TextBox(t) => t.click_ok(r),
        }
    }

    open spec fn activatable(&self) -> bool {
        match self {
            WbWidget::Button(b) => b.activatable(),
            WbWidget::TextBox(t) => t.activatable(),
        }
    }

    open spec fn callable(&self) -> bool {
        match self {
            WbWidget::Button(b) => b.callable(),
            WbWidget::TextBox(t) => t.callable(),
        }
    }

    fn is_activatable(&self) -> (r: bool) {
        match self {
            WbWidget::Button(b) => b.is_activatable(),
            WbWidget::TextBox(t) => t.is_activatable(),
        }
    }

    fn wb_item_base(&mut self) -> (r: &mut WbItemBase) {
        match self {
            WbWidget::Button(b) => b.wb_item_base(),
            WbWidget::TextBox(t) => t.wb_item_base(),
        }
    }

    fn on_crt_parent_wnd_rsc(&self, ptr_wb_item: usize, hwnd_parent: usize) -> (r: ChildWndArgs) {
        match self {
            WbWidget::Button(b) => b.on_crt_parent_wnd_rsc(ptr_wb_item, hwnd_parent),
            WbWidget::TextBox(t) => t.on_crt_parent_wnd_rsc(ptr_wb_item, hwnd_parent),
        }
    }

    fn on_click(&self) -> (r: ClickOutcome) {
        match self {
            WbWidget::Button(b) => b.on_click(),
            WbWidget::TextBox(t) => t.on_click(),
        }
    }
}

/// A native notification, as the window's dispatch function sees it.
#[derive(Clone, Copy, Debug, PartialEq, Eq, Structural)]
pub enum WndEvent {
    /// A control reported a command: `id` is the identifier the notification
    /// carries, `source` the back-reference read from the control's
    /// user-data slot (zero where the control holds none).
    Command { id: i32, source: usize },
    /// The window is being destroyed.
    Destroy,
    /// Any other notification.
    Other,
}

/// What the dispatch function answers to a notification.
#[derive(Clone, Copy, Debug, PartialEq, Eq, Structural)]
pub enum WndAction {
    /// Handled, nothing to do.
    Ignored,
    /// A widget was activated, with this outcome.
    Clicked(ClickOutcome),
    /// A button without a handler was activated: a fatal misuse, and
    /// nothing was run.
    NoHandler,
    /// Handled: post the process-wide quit signal.
    PostQuit,
    /// Not handled here: leave it to the platform's default handling.
    Default,
}

/// The native handle of a window and the widgets on it, in the order they
/// were added; that order is the order in which their native controls are
/// created.
#[verifier::reject_recursive_types(T)]
pub struct WndBase<T, F> {
    pub hwnd_wnd_base: usize,
    pub wb_items: Vec<WbWidget<T, F>>,
}

impl<T, F: Fn(&mut T)> WndBase<T, F> {
    /// Every bound handler may run on any owner value.
    pub open spec fn items_callable(&self) -> bool {
        forall|i: int| 0 <= i < self.wb_items@.len() ==> (#[trigger] self.wb_items@[i]).callable()
    }

    /// Every widget has the geometry its native control needs.
    pub open spec fn items_placed(&self) -> bool {
        forall|i: int|
            0 <= i < self.wb_items@.len() ==> (#[trigger] self.wb_items@[i]).base_view().is_placed()
    }

    /// A window without a native handle and without widgets.
    pub fn new() -> (r: Self)
        ensures
            r.hwnd_wnd_base == 0,
            r.wb_items@.len() == 0,
    {
        WndBase { hwnd_wnd_base: 0, wb_items: Vec::new() }
    }

    /// The native handle (zero until the native window exists), for platform
    /// calls made elsewhere.
    pub fn hwnd(&self) -> (r: usize)
        ensures
            r == self.hwnd_wnd_base,
    {
        self.hwnd_wnd_base
    }

    /// Appends a new button (100 by 25 at the given place, no handler yet)
    /// and hands it back for further configuration.
    #[allow(non_snake_case)]
    pub fn yield_WbButton(&mut self, x: i32, y: i32, caption: &str) -> (r: &mut WbButton<T, F>)
        ensures
            r.wb_item_base.x == Some(x),
            r.wb_item_base.y == Some(y),
            r.wb_item_base.width == Some(100i32),
            r.wb_item_base.height == Some(25i32),
            r.wb_item_base.DBG_description@ == "None"@,
            r.caption@ == caption@,
            r.tgt_obj is None,
            r.tgt_fn is None,
            final(self).wb_items@ == old(self).wb_items@.push(WbWidget::Button(*final(r))),
            final(self).hwnd_wnd_base == old(self).hwnd_wnd_base,
    {
        let wb_button = WbButton::new(x, y, caption);
        self.wb_items.push(WbWidget::Button(wb_button));
        let last: usize = self.wb_items.len() - 1;
        match &mut self.wb_items[last] {
            WbWidget::Button(b) => b,
            WbWidget::TextBox(_) => vstd::pervasive::unreached(),
        }
    }

    /// Appends a new text box at the given place and size and hands it back
    /// for further configuration.
    #[allow(non_snake_case)]
    pub fn yield_WbTextBox(&mut self, x: i32, y: i32, width: i32, height: i32) -> (r:
        &mut WbTextBox)
        ensures
            r.wb_item_base.x == Some(x),
            r.wb_item_base.y == Some(y),
            r.wb_item_base.width == Some(width),
            r.wb_item_base.height == Some(height),
            r.wb_item_base.DBG_description@ == "None"@,
            final(self).wb_items@ == old(self).wb_items@.push(WbWidget::TextBox(*final(r))),
            final(self).hwnd_wnd_base == old(self).hwnd_wnd_base,
    {
        let wb_text_box = WbTextBox::new(x, y, width, height);
        self.wb_items.push(WbWidget::TextBox(wb_text_box));
        let last: usize = self.wb_items.len() - 1;
        match &mut self.wb_items[last] {
            WbWidget::TextBox(t) => t,
            WbWidget::Button(_) => vstd::pervasive::unreached(),
        }
    }

    /// Records the native handle once the native window exists and notifies
    /// every widget of it, in insertion order and once each: the result holds
    /// one set of creation arguments per widget, the i-th asked for by the
    /// i-th widget with back-reference `i + 1` (zero stands for none).
    pub fn attach_hwnd(&mut self, hwnd: usize) -> (r: Vec<ChildWndArgs>)
        requires
            old(self).hwnd_wnd_base == 0,
            hwnd != 0,
            old(self).items_placed(),
        ensures
            final(self).hwnd_wnd_base == hwnd,
            final(self).wb_items@ == old(self).wb_items@,
            r@.len() == old(self).wb_items@.len(),
            forall|i: int|
                0 <= i < r@.len() ==> (#[trigger] old(self).wb_items@[i]).child_ok(
                    (i + 1) as usize,
                    hwnd,
                    r@[i],
                ),
    {
        self.hwnd_wnd_base = hwnd;
        let mut children: Vec<ChildWndArgs> = Vec::new();
        let n: usize = self.wb_items.len();
        let mut i: usize = 0;
        while i < n
            invariant
                n == self.wb_items@.len(),
                self.wb_items@ == old(self).wb_items@,
                self.hwnd_wnd_base == hwnd,
                old(self).items_placed(),
                i <= n,
                children@.len() == i,
                forall|j: int|
                    0 <= j < i ==> (#[trigger] self.wb_items@[j]).child_ok(
                        (j + 1) as usize,
                        hwnd,
                        children@[j],
                    ),
            decreases n - i,
        {
            let args = self.wb_items[i].on_crt_parent_wnd_rsc(i + 1, hwnd);
            children.push(args);
            i = i + 1;
        }
        children
    }

    /// The dispatch decision for one notification. A command whose identifier
    /// is the button identifier and whose back-reference names a widget
    /// activates that widget, or reports a button without a handler; any
    /// other command, one without a back-reference included, is ignored.
    /// Destruction asks for the quit signal, once; everything else goes to
    /// default handling.
    pub fn wnd_proc(&self, ev: WndEvent) -> (r: WndAction)
        requires
            self.items_callable(),
        ensures
            match ev {
                WndEvent::Command { id, source } => if id == ID_BUTTON && 1 <= source
                    <= self.wb_items@.len() {
                    let w = self.wb_items@[source - 1];
                    if w.activatable() {
                        r is Clicked && w.click_ok(r->Clicked_0)
                    } else {
                        r == WndAction::NoHandler
                    }
                } else {
                    r == WndAction::Ignored
                },
                WndEvent::Destroy => r == WndAction::PostQuit,
                WndEvent::Other => r == WndAction::Default,
            },
    {
        match ev {
            WndEvent::Command { id, source } => {
                if id != ID_BUTTON || source == 0 || source > self.wb_items.len() {
                    WndAction::Ignored
                } else if !self.wb_items[source - 1].is_activatable() {
                    WndAction::NoHandler
                } else {
                    WndAction::Clicked(self.wb_items[source - 1].on_click())
                }
            },
            WndEvent::Destroy => WndAction::PostQuit,
            WndEvent::Other => WndAction::Default,
        }
    }
}

} // verus!

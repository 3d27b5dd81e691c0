//! Widgets that live on a window: their geometry record, the push button
//! with its handler, and the multi-line text box.
use std::cell::RefCell;
use std::rc::Rc;
use vstd::prelude::*;
use crate::text::{str_to_u16, wide_of};

verus! {

/// Control identifier that command notifications of buttons carry.
pub const ID_BUTTON: i32 = 100;

/// Control identifier given to text boxes.
pub const ID_TBOX: i32 = 101;

#[verifier::external_type_specification]
#[verifier::external_body]
#[verifier::reject_recursive_types(T)]
pub struct ExRefCell<T: ?Sized>(RefCell<T>);

/// Relies on Rc::clone: the new pointer refers to the same allocation.
#[verifier::external_body]
fn share<T>(obj: &Rc<RefCell<T>>) -> (r: Rc<RefCell<T>>)
    ensures
        r == *obj,
{
    Rc::clone(obj)
}

/// Relies on RefCell::try_borrow_mut: exclusive access is granted unless the
/// cell is already borrowed. When it is granted, `tgt_fn` runs on the owner
/// and `true` comes back; otherwise nothing is called and `false` comes back.
#[verifier::external_body]
fn call_on_borrowed<T, F: Fn(&mut T)>(obj: &Rc<RefCell<T>>, tgt_fn: &F) -> (r: bool)
    requires
        forall|a: &mut T| #[trigger] tgt_fn.requires((a,)),
    ensures
        r ==> exists|a: &mut T| #[trigger] tgt_fn.ensures((a,), ()),
{
    match obj.try_borrow_mut() {
        Ok(mut target) => {
            tgt_fn(&mut target);
            true
        },
        Err(_) => false,
    }
}

/// Geometry and a debug label shared by every widget. Position and size are
/// optional so that a layout may supply them later.
#[allow(non_snake_case)]
pub struct WbItemBase {
    pub x: Option<i32>,
    pub y: Option<i32>,
    pub width: Option<i32>,
    pub height: Option<i32>,
    pub DBG_description: String,
}

impl WbItemBase {
    /// Every coordinate is present, so a native control can be made from it.
    pub open spec fn is_placed(&self) -> bool {
        &&& self.x is Some
        &&& self.y is Some
        &&& self.width is Some
        &&& self.height is Some
    }

    pub(crate) fn with_xy_size(x: i32, y: i32, width: i32, height: i32) -> (r: Self)
        ensures
            r.x == Some(x),
            r.y == Some(y),
            r.width == Some(width),
            r.height == Some(height),
            r.DBG_description@ == "None"@,
    {
        WbItemBase {
            x: Some(x),
            y: Some(y),
            width: Some(width),
            height: Some(height),
            DBG_description: "None".to_owned(),
        }
    }

    /// Overrides the width; everything else stays.
    pub fn set_width(&mut self, width: i32) -> (r: &mut Self)
        ensures
            r.width == Some(width),
            r.x == old(self).x,
            r.y == old(self).y,
            r.height == old(self).height,
            r.DBG_description == old(self).DBG_description,
            *final(self) == *final(r),
    {
        self.width = Some(width);
        self
    }

    /// Replaces the debug label; the geometry stays.
    #[allow(non_snake_case)]
    pub fn set_DBG_description(&mut self, description: &str) -> (r: &mut Self)
        ensures
            r.DBG_description@ == description@,
            r.x == old(self).x,
            r.y == old(self).y,
            r.width == old(self).width,
            r.height == old(self).height,
            *final(self) == *final(r),
    {
        self.DBG_description = description.to_owned();
        self
    }
}

/// The two kinds of native control a widget can stand for.
#[derive(Clone, Copy, Debug, PartialEq, Eq, Structural)]
pub enum WbKind {
    Button,
    TextBox,
}

/// Everything needed to create a widget's native child control and to route
/// its later events back: `user_data` goes into the control's user-data slot.
pub struct ChildWndArgs {
    pub kind: WbKind,
    pub caption: Vec<u16>,
    pub left: i32,
    pub top: i32,
    pub width: i32,
    pub height: i32,
    pub hwnd_parent: usize,
    pub ctrl_id: i32,
    pub user_data: usize,
}

/// What an activation of a widget led to.
#[derive(Clone, Copy, Debug, PartialEq, Eq, Structural)]
pub enum ClickOutcome {
    /// The widget takes no activation.
    Ignored,
    /// The handler ran with exclusive access to its owner.
    Invoked,
    /// The handler's owner was already borrowed, so the handler did not run.
    Busy,
}

/// The child-creation arguments that a widget of the given kind, geometry and
/// caption asks for.
pub open spec fn child_args_spec(
    kind: WbKind,
    base: WbItemBase,
    caption: Seq<u16>,
    user_data: usize,
    hwnd_parent: usize,
    r: ChildWndArgs,
) -> bool {
    &&& r.kind == kind
    &&& r.caption@ == caption
    &&& r.left == base.x->Some_0
    &&& r.top == base.y->Some_0
    &&& r.width == base.width->Some_0
    &&& r.height == base.height->Some_0
    &&& r.hwnd_parent == hwnd_parent
    &&& r.ctrl_id == (if kind == WbKind::Button { ID_BUTTON } else { ID_TBOX })
    &&& r.user_data == user_data
}

fn child_args(
    kind: WbKind,
    base: &WbItemBase,
    caption: Vec<u16>,
    user_data: usize,
    hwnd_parent: usize,
) -> (r: ChildWndArgs)
    requires
        base.is_placed(),
    ensures
        child_args_spec(kind, *base, caption@, user_data, hwnd_parent, r),
{
    ChildWndArgs {
        kind,
        caption,
        left: base.x.unwrap(),
        top: base.y.unwrap(),
        width: base.width.unwrap(),
        height: base.height.unwrap(),
        hwnd_parent,
        ctrl_id: if kind == WbKind::Button { ID_BUTTON } else { ID_TBOX },
        user_data,
    }
}

/// What every widget offers its window: its geometry record, the native
/// control it asks for once the parent window exists, and its response to
/// activation.
pub trait WbItem: Sized {
    /// The widget's geometry record.
    spec fn base_view(&self) -> WbItemBase;

    /// The widget with its geometry record replaced.
    spec fn with_base(&self, base: WbItemBase) -> Self;

    /// The creation arguments the widget asks for under a parent.
    spec fn child_ok(&self, ptr_wb_item: usize, hwnd_parent: usize, r: ChildWndArgs) -> bool;

    /// The outcomes an activation of the widget may have.
    spec fn click_ok(&self, r: ClickOutcome) -> bool;

    /// The widget can take an activation: a button needs its handler.
    spec fn activatable(&self) -> bool;

    /// Whether the widget can take an activation.
    fn is_activatable(&self) -> (r: bool)
        ensures
            r == self.activatable(),
    ;

    /// Whatever the widget would run on activation may run on any owner
    /// value: a bound handler has no precondition left to meet.
    spec fn callable(&self) -> bool;

    /// Mutable access to the geometry record.
    fn wb_item_base(&mut self) -> (r: &mut WbItemBase)
        ensures
            *r == old(self).base_view(),
            *final(self) == old(self).with_base(*final(r)),
    ;

    /// Called once, after the parent's native window exists: the arguments
    /// for the widget's own native control, whose user-data slot is to hold
    /// `ptr_wb_item` so that its events find their way back.
    fn on_crt_parent_wnd_rsc(&self, ptr_wb_item: usize, hwnd_parent: usize) -> (r: ChildWndArgs)
        requires
            self.base_view().is_placed(),
        ensures
            self.child_ok(ptr_wb_item, hwnd_parent, r),
    ;

    /// Called when the native control reports an activation.
    fn on_click(&self) -> (r: ClickOutcome)
        requires
            self.activatable(),
            self.callable(),
        ensures
            self.click_ok(r),
    ;
}

/// A push button with a caption and a handler: an owner object shared with
/// the application and a function run on it with exclusive access.
#[verifier::reject_recursive_types(T)]
pub struct WbButton<T, F> {
    pub wb_item_base: WbItemBase,
    pub caption: String,
    pub tgt_obj: Option<Rc<RefCell<T>>>,
    pub tgt_fn: Option<F>,
}

impl<T, F: Fn(&mut T)> WbButton<T, F> {
    /// Some part of a handler is already bound.
    pub open spec fn spec_has_handler(&self) -> bool {
        self.tgt_obj is Some || self.tgt_fn is Some
    }

    /// Whether some part of a handler is already bound; a handler may be
    /// set only when this is false.
    #[verifier::when_used_as_spec(spec_has_handler)]
    pub fn has_handler(&self) -> (r: bool)
        ensures
            r == self.spec_has_handler(),
    {
        self.tgt_obj.is_some() || self.tgt_fn.is_some()
    }

    /// A new button, 100 by 25 at the given place, with no handler.
    pub fn new(x: i32, y: i32, caption: &str) -> (r: Self)
        ensures
            r.wb_item_base.x == Some(x),
            r.wb_item_base.y == Some(y),
            r.wb_item_base.width == Some(100i32),
            r.wb_item_base.height == Some(25i32),
            r.wb_item_base.DBG_description@ == "None"@,
            r.caption@ == caption@,
            r.tgt_obj is None,
            r.tgt_fn is None,
    {
        WbButton {
            wb_item_base: WbItemBase::with_xy_size(x, y, 100, 25),
            caption: caption.to_owned(),
            tgt_obj: None,
            tgt_fn: None,
        }
    }

    /// Binds the handler and hands the button back for further
    /// configuration. A handler is bound once: binding a second one is a
    /// misuse that callers rule out by testing `has_handler` first.
    pub fn set_handler(&mut self, tgt_obj: &Rc<RefCell<T>>, tgt_fn: F) -> (r: &mut Self)
        requires
            !old(self).has_handler(),
            forall|a: &mut T| #[trigger] tgt_fn.requires((a,)),
        ensures
            r.tgt_obj == Some(*tgt_obj),
            r.tgt_fn == Some(tgt_fn),
            r.wb_item_base == old(self).wb_item_base,
            r.caption == old(self).caption,
            *final(self) == *final(r),
    {
        self.tgt_obj = Some(share(tgt_obj));
        self.tgt_fn = Some(tgt_fn);
        self
    }
}

impl<T, F: Fn(&mut T)> WbItem for WbButton<T, F> {
    open spec fn base_view(&self) -> WbItemBase {
        self.wb_item_base
    }

    open spec fn with_base(&self, base: WbItemBase) -> Self {
        WbButton {
            wb_item_base: base,
            caption: self.caption,
            tgt_obj: self.tgt_obj,
            tgt_fn: self.tgt_fn,
        }
    }

    /// A native push button under the parent, captioned with the button's
    /// text in UTF-16.
    open spec fn child_ok(&self, ptr_wb_item: usize, hwnd_parent: usize, r: ChildWndArgs) -> bool {
        child_args_spec(
            WbKind::Button,
            self.wb_item_base,
            wide_of(self.caption@),
            ptr_wb_item,
            hwnd_parent,
            r,
        )
    }

    /// The stored handler runs on its owner unless the owner is already
    /// borrowed; `Invoked` means it ran and returned.
    open spec fn click_ok(&self, r: ClickOutcome) -> bool {
        &&& r == ClickOutcome::Invoked || r == ClickOutcome::Busy
        &&& r == ClickOutcome::Invoked ==> exists|a: &mut T| #[trigger] self.tgt_fn->Some_0.ensures((a,), ())
    }

    open spec fn activatable(&self) -> bool {
        self.tgt_obj is Some && self.tgt_fn is Some
    }

    open spec fn callable(&self) -> bool {
        self.tgt_fn is Some ==> forall|a: &mut T| #[trigger] self.tgt_fn->Some_0.requires((a,))
    }

    fn is_activatable(&self) -> (r: bool) {
        self.tgt_obj.is_some() && self.tgt_fn.is_some()
    }

    fn wb_item_base(&mut self) -> (r: &mut WbItemBase) {
        &mut self.wb_item_base
    }

    fn on_crt_parent_wnd_rsc(&self, ptr_wb_item: usize, hwnd_parent: usize) -> (r: ChildWndArgs) {
        let caption = str_to_u16(self.caption.as_str());
        child_args(WbKind::Button, &self.wb_item_base, caption, ptr_wb_item, hwnd_parent)
    }

    fn on_click(&self) -> (r: ClickOutcome) {
        let obj = self.tgt_obj.as_ref().unwrap();
        let f = self.tgt_fn.as_ref().unwrap();
        if call_on_borrowed(obj, f) {
            ClickOutcome::Invoked
        } else {
            ClickOutcome::Busy
        }
    }
}

/// A multi-line, scrollable text box.
pub struct WbTextBox {
    pub wb_item_base: WbItemBase,
}

impl WbTextBox {
    /// A new text box at the given place and size.
    pub fn new(x: i32, y: i32, width: i32, height: i32) -> (r: Self)
        ensures
            r.wb_item_base.x == Some(x),
            r.wb_item_base.y == Some(y),
            r.wb_item_base.width == Some(width),
            r.wb_item_base.height == Some(height),
            r.wb_item_base.DBG_description@ == "None"@,
    {
        WbTextBox { wb_item_base: WbItemBase::with_xy_size(x, y, width, height) }
    }
}

impl WbItem for WbTextBox {
    open spec fn base_view(&self) -> WbItemBase {
        self.wb_item_base
    }

    open spec fn with_base(&self, base: WbItemBase) -> Self {
        WbTextBox { wb_item_base: base }
    }

    /// A native edit control under the parent, with an empty caption.
    open spec fn child_ok(&self, ptr_wb_item: usize, hwnd_parent: usize, r: ChildWndArgs) -> bool {
        child_args_spec(
            WbKind::TextBox,
            self.wb_item_base,
            wide_of(Seq::<char>::empty()),
            ptr_wb_item,
            hwnd_parent,
            r,
        )
    }

    /// Text boxes take no activation.
    open spec fn click_ok(&self, r: ClickOutcome) -> bool {
        r == ClickOutcome::Ignored
    }

    open spec fn activatable(&self) -> bool {
        true
    }

    open spec fn callable(&self) -> bool {
        true
    }

    fn is_activatable(&self) -> (r: bool) {
        true
    }

    fn wb_item_base(&mut self) -> (r: &mut WbItemBase) {
        &mut self.wb_item_base
    }

    fn on_crt_parent_wnd_rsc(&self, ptr_wb_item: usize, hwnd_parent: usize) -> (r: ChildWndArgs) {
        let caption = vec![0u16];
        assert(caption@ =~= wide_of(Seq::<char>::empty()));
        child_args(WbKind::TextBox, &self.wb_item_base, caption, ptr_wb_item, hwnd_parent)
    }

    fn on_click(&self) -> (r: ClickOutcome) {
        ClickOutcome::Ignored
    }
}

} // verus!

//! The workspaces widget: a fixed row of eight buttons, of which the one
//! matching the compositor's active workspace carries the `active-workspace`
//! style class. The widget is synchronized by `update`, fed with the result
//! of one active-workspace query; a failed query changes nothing.

use vstd::prelude::*;
use vstd::assert_sets_equal;
use crate::errors::BarError;
use crate::text::dec_str;
use crate::text::u64_to_string;

verus! {

/// How many workspace buttons the bar shows; ids outside `1..=8` have no button.
pub const WORKSPACE_COUNT: u64 = 8;

/// Minimum button width in logical pixels.
pub const BUTTON_MIN_WIDTH: i32 = 30;

/// Minimum button height in logical pixels.
pub const BUTTON_MIN_HEIGHT: i32 = 25;

/// One workspace button: its label and whether it carries the
/// `active-workspace` style class.
pub struct WorkspaceButton {
    /// The label text, the decimal workspace id.
    pub label: String,
    /// Whether the button carries the `active-workspace` style class.
    pub active: bool,
}

/// The abstract value of one button.
#[verifier::ext_equal]
pub struct ButtonView {
    pub label: Seq<char>,
    pub active: bool,
}

impl View for WorkspaceButton {
    type V = ButtonView;

    open spec fn view(&self) -> ButtonView {
        ButtonView { label: self.label@, active: self.active }
    }
}

/// The abstract value of the whole widget.
#[verifier::ext_equal]
pub struct WorkspacesView {
    pub buttons: Seq<ButtonView>,
    pub active_workspace: int,
}

impl WorkspacesView {
    /// Well-formedness: eight buttons labeled `1` through `8`, and the
    /// `active-workspace` class sits on a button exactly when its id is the
    /// stored active workspace.
    pub open spec fn wf(self) -> bool {
        &&& self.buttons.len() == 8
        &&& forall|i: int|
            0 <= i < 8 ==> (#[trigger] self.buttons[i]).label == dec_str((i + 1) as nat)
        &&& forall|i: int|
            0 <= i < 8 ==> ((#[trigger] self.buttons[i]).active <==> self.active_workspace == i
                + 1)
    }
}

/// Exactly the button for workspace `id` carries the active class.
pub open spec fn sole_active(w: WorkspacesView, id: int) -> bool {
    forall|i: int| 0 <= i < w.buttons.len() ==> ((#[trigger] w.buttons[i]).active <==> i + 1 == id)
}

/// No button carries the active class.
pub open spec fn none_active(w: WorkspacesView) -> bool {
    forall|i: int| 0 <= i < w.buttons.len() ==> !(#[trigger] w.buttons[i]).active
}

/// The refresh transition: a successful query moves the active class to the
/// reported workspace's button (to none when the id has no button) and stores
/// the id; a failed query leaves the widget as it was.
pub open spec fn refresh_step(w: WorkspacesView, observed: Result<i64, BarError>) -> WorkspacesView {
    match observed {
        Ok(id) => WorkspacesView {
            buttons: Seq::new(
                w.buttons.len(),
                |i: int| ButtonView { label: w.buttons[i].label, active: i + 1 == id as int },
            ),
            active_workspace: id as int,
        },
        Err(_) => w,
    }
}

/// A run of refreshes, first observation first.
pub open spec fn refresh_run(w: WorkspacesView, observed: Seq<Result<i64, BarError>>) -> WorkspacesView
    decreases observed.len(),
{
    if observed.len() == 0 {
        w
    } else {
        refresh_run(refresh_step(w, observed[0]), observed.subrange(1, observed.len() as int))
    }
}

/// After a successful refresh whose reported id lies
/// in `1..=8`, exactly one button carries the `active-workspace` class, the
/// one labeled with that id.
pub proof fn lemma_exactly_one_active(w: WorkspacesView, id: i64)
    requires
        w.wf(),
        1 <= id <= 8,
    ensures
        refresh_step(w, Ok(id)).wf(),
        sole_active(refresh_step(w, Ok(id)), id as int),
{
}

/// After a successful refresh whose reported id lies
/// outside `1..=8`, no button carries the `active-workspace` class, though
/// the stored active workspace becomes that id.
pub proof fn lemma_no_phantom_active(w: WorkspacesView, id: i64)
    requires
        w.wf(),
        !(1 <= id <= 8),
    ensures
        refresh_step(w, Ok(id)).wf(),
        none_active(refresh_step(w, Ok(id))),
        refresh_step(w, Ok(id)).active_workspace == id as int,
{
}

/// A run of refreshes in which every query failed
/// leaves the widget exactly as it was, whatever the errors were.
pub proof fn lemma_error_isolation(w: WorkspacesView, observed: Seq<Result<i64, BarError>>)
    requires
        forall|i: int| 0 <= i < observed.len() ==> (#[trigger] observed[i]) is Err,
    ensures
        refresh_run(w, observed) == w,
    decreases observed.len(),
{
    if observed.len() > 0 {
        assert(observed[0] is Err);
        lemma_error_isolation(w, observed.subrange(1, observed.len() as int));
    }
}

/// The widget state: the button row and the most recently reported
/// active workspace id.
pub struct WorkspacesWidget {
    /// The eight buttons, in label order.
    pub buttons: Vec<WorkspaceButton>,
    /// The id most recently reported by the compositor; initially 1.
    pub active_workspace: i64,
}

impl View for WorkspacesWidget {
    type V = WorkspacesView;

    open spec fn view(&self) -> WorkspacesView {
        WorkspacesView {
            buttons: self.buttons@.map(|i: int, b: WorkspaceButton| b@),
            active_workspace: self.active_workspace as int,
        }
    }
}

impl WorkspacesWidget {
    /// A fresh widget: buttons `1` through `8`, active workspace 1, with the
    /// active class on button 1.
    pub fn new() -> (r: Self)
        ensures
            r@.wf(),
            r@.active_workspace == 1,
            sole_active(r@, 1),
    {
        let mut buttons: Vec<WorkspaceButton> = Vec::new();
        let mut i: u64 = 1;
        while i <= WORKSPACE_COUNT
            invariant
                1 <= i <= 9,
                buttons@.len() == i - 1,
                forall|j: int|
                    0 <= j < i - 1 ==> (#[trigger] buttons@[j])@.label == dec_str((j + 1) as nat),
                forall|j: int| 0 <= j < i - 1 ==> ((#[trigger] buttons@[j])@.active <==> j == 0),
            decreases 9 - i,
        {
            let label = u64_to_string(i);
            buttons.push(WorkspaceButton { label, active: i == 1 });
            i = i + 1;
        }
        WorkspacesWidget { buttons, active_workspace: 1 }
    }

    /// The buttons as the widget's container presents them, in order.
    pub fn widget(&self) -> (r: Vec<WorkspaceButton>)
        ensures
            r@.map(|i: int, b: WorkspaceButton| b@) == self@.buttons,
    {
        let mut r: Vec<WorkspaceButton> = Vec::new();
        let mut i: usize = 0;
        while i < self.buttons.len()
            invariant
                0 <= i <= self.buttons@.len(),
                r@.len() == i,
                forall|j: int| 0 <= j < i ==> (#[trigger] r@[j])@ == self.buttons@[j]@,
            decreases self.buttons@.len() - i,
        {
            let b = &self.buttons[i];
            r.push(WorkspaceButton { label: b.label.clone(), active: b.active });
            i = i + 1;
        }
        proof {
            assert(r@.map(|i: int, b: WorkspaceButton| b@) =~= self@.buttons);
        }
        r
    }

    /// Apply the result of one active-workspace query: on success move the
    /// active class to the reported workspace and store its id; on failure
    /// leave every button and the stored id untouched.
    pub fn update(&mut self, observed: Result<i64, BarError>)
        requires
            old(self)@.wf(),
        ensures
            final(self)@ == refresh_step(old(self)@, observed),
            final(self)@.wf(),
            observed matches Ok(id) ==> final(self)@.active_workspace == id as int,
            (observed matches Ok(id) && 1 <= id <= 8) ==> sole_active(final(self)@, observed->Ok_0 as int),
            (observed matches Ok(id) && !(1 <= id <= 8)) ==> none_active(final(self)@),
            observed is Err ==> final(self)@ == old(self)@,
    {
        match observed {
            Ok(active_id) => {
                let old_active = self.active_workspace;
                self.active_workspace = active_id;
                if 1 <= old_active && old_active <= 8 {
                    let idx = (old_active - 1) as usize;
                    self.buttons[idx].active = false;
                }
                if 1 <= active_id && active_id <= 8 {
                    let idx = (active_id - 1) as usize;
                    self.buttons[idx].active = true;
                }
                proof {
                    assert(self@.buttons =~= refresh_step(old(self)@, observed).buttons);
                    assert(self@ =~= refresh_step(old(self)@, observed));
                }
            },
            Err(_) => {},
        }
    }

    /// The stylesheet registered once process-wide for the display: the
    /// active button red, bold and underlined; the base button transparent
    /// and borderless with 16px `#d8dee9` text; `#eceff4` on hover. The
    /// caller hands it to the display's style context.
    pub fn setup_css(&self) -> (r: &'static str)
        ensures
            r@ == stylesheet_spec(),
    {
        "
            .active-workspace {
                color: #ff0000;
                font-weight: bold;
                text-decoration: underline;
            }
            button {
                background: none;
                border: none;
                color: #d8dee9;
                font-size: 16px;
                padding: 0 5px;
            }
            button:hover {
                color: #eceff4;
            }
        "
    }
}

/// The text of the widget stylesheet.
pub open spec fn stylesheet_spec() -> Seq<char> {
    "
            .active-workspace {
                color: #ff0000;
                font-weight: bold;
                text-decoration: underline;
            }
            button {
                background: none;
                border: none;
                color: #d8dee9;
                font-size: 16px;
                padding: 0 5px;
            }
            button:hover {
                color: #eceff4;
            }
        "@
}

/// The style a display ends up with is insensitive to how often the same
/// stylesheet was registered: only the set of distinct sheets matters.
pub open spec fn effective_style(sheets: Seq<Seq<char>>) -> Set<Seq<char>> {
    sheets.to_set()
}

/// Registering the widget stylesheet `n >= 1` times
/// yields the same effective style as registering it once.
pub proof fn lemma_setup_css_idempotent(n: nat)
    requires
        n >= 1,
    ensures
        effective_style(Seq::new(n, |i: int| stylesheet_spec())) == effective_style(
            Seq::new(1, |i: int| stylesheet_spec()),
        ),
{
    let many = Seq::new(n, |i: int| stylesheet_spec());
    let once = Seq::new(1, |i: int| stylesheet_spec());
    assert_sets_equal!(many.to_set() == once.to_set(), s => {
        if many.to_set().contains(s) {
            let i = choose|i: int| 0 <= i < many.len() && many[i] == s;
            assert(once[0] == s);
            assert(once.to_set().contains(s));
        }
        if once.to_set().contains(s) {
            assert(many[0] == s);
            assert(many.to_set().contains(s));
        }
    });
}

} // verus!

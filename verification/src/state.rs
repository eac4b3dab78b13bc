//! The daemon's picture of the outputs: every head that the output manager
//! has announced and not yet withdrawn, and how each event of the manager,
//! of a head or of a mode changes that picture.

use std::collections::HashMap;
use vstd::prelude::*;
use crate::output::{HeadEvent, HeadView, ModeEvent, OutputHead, OutputMode};

verus! {

/// The interface name under which the compositor offers output management.
pub open spec fn output_manager_interface() -> Seq<char> {
    "zwlr_output_manager_v1"@
}

/// The highest version of the output manager interface that the daemon
/// speaks.
pub open spec fn max_output_manager_version() -> u32 {
    4
}

/// The version in which the daemon binds a global that the registry
/// announces as `interface` in `version`, or `None` where it binds none.
pub open spec fn bind_version(interface: Seq<char>, version: u32) -> Option<u32> {
    if interface == output_manager_interface() {
        Some(
            if version < max_output_manager_version() {
                version
            } else {
                max_output_manager_version()
            },
        )
    } else {
        None
    }
}

/// Decides on a global of the registry: the output manager is bound, in
/// its announced version but at most 4; every other global is left alone.
pub fn output_manager_version(interface: &String, version: u32) -> (r: Option<u32>)
    ensures
        r == bind_version(interface@, version),
{
    let wanted = "zwlr_output_manager_v1".to_owned();
    if interface.eq(&wanted) {
        if version < 4 {
            Some(version)
        } else {
            Some(4)
        }
    } else {
        None
    }
}

/// An event of the `zwlr_output_manager_v1` object.
#[derive(Debug, Clone, Copy, PartialEq, Eq, Structural)]
pub enum ManagerEvent {
    /// A new head object, by its id.
    Head { head: u32 },
    /// All information about the heads has been sent, as of `serial`.
    Done { serial: u32 },
    /// The manager is gone.
    Finished,
}

/// What the caller is to do with the head object after a head event.
#[derive(Debug, Clone, Copy, PartialEq, Eq, Structural)]
pub enum HeadAction {
    /// The event was applied to the head.
    Applied,
    /// The event announced the mode object `mode`, which was added to the
    /// head; record on that mode object that it belongs to this head.
    TagMode { mode: u32 },
    /// The head is gone and was removed; release its object.
    Release,
    /// The event is for a head that is not known; nothing changed.
    UnknownHead,
    /// The event is not one that the daemon handles; nothing changed.
    UnsupportedEvent,
}

/// What the caller is to do with the mode object after a mode event.
#[derive(Debug, Clone, Copy, PartialEq, Eq, Structural)]
pub enum ModeAction {
    /// Nothing more.
    Keep,
    /// The mode is gone and was removed; release its object.
    Release,
}

/// The outputs as the daemon knows them.
#[derive(Debug)]
pub struct State {
    /// The known heads, by the id of their head object.
    pub output_heads: HashMap<u32, OutputHead>,
    /// The id of the bound output manager object, if one is bound.
    pub output_manager: Option<u32>,
    /// The serial of the manager's last `done` event.
    pub output_manager_serial: u32,
}

/// What a [`State`] holds, with each head by its view.
pub struct StateView {
    pub heads: Map<u32, HeadView>,
    pub output_manager: Option<u32>,
    pub output_manager_serial: u32,
}

/// The view of each head of `m`.
pub open spec fn heads_view(m: Map<u32, OutputHead>) -> Map<u32, HeadView> {
    Map::new(|k: u32| m.contains_key(k), |k: u32| m[k]@)
}

impl View for State {
    type V = StateView;

    open spec fn view(&self) -> StateView {
        StateView {
            heads: heads_view(self.output_heads@),
            output_manager: self.output_manager,
            output_manager_serial: self.output_manager_serial,
        }
    }
}

impl StateView {
    /// No heads, no manager.
    pub open spec fn initial() -> StateView {
        StateView { heads: Map::empty(), output_manager: None, output_manager_serial: 0 }
    }

    /// The state with the head `head` fresh, replacing any head of that id.
    pub open spec fn with_head(self, head: u32) -> StateView {
        StateView { heads: self.heads.insert(head, HeadView::initial()), ..self }
    }

    /// The state after the manager event `e`.
    pub open spec fn after_manager_event(self, e: ManagerEvent) -> StateView {
        match e {
            ManagerEvent::Head { head } => self.with_head(head),
            ManagerEvent::Done { serial } => StateView { output_manager_serial: serial, ..self },
            ManagerEvent::Finished => StateView {
                output_manager: None,
                output_manager_serial: 0,
                ..self
            },
        }
    }

    /// The state after the event `e` of the head `head`: an unknown head
    /// changes nothing, `Finished` removes the head, any other event
    /// changes that head alone.
    pub open spec fn after_head_event(self, head: u32, e: HeadEvent) -> StateView {
        if !self.heads.contains_key(head) {
            self
        } else {
            match e {
                HeadEvent::Finished => StateView { heads: self.heads.remove(head), ..self },
                _ => StateView {
                    heads: self.heads.insert(head, self.heads[head].after_event(e)),
                    ..self
                },
            }
        }
    }

    /// What the caller is to do after the event `e` of the head `head`.
    pub open spec fn head_action(self, head: u32, e: HeadEvent) -> HeadAction {
        if !self.heads.contains_key(head) {
            HeadAction::UnknownHead
        } else {
            match e {
                HeadEvent::Finished => HeadAction::Release,
                HeadEvent::Mode { mode } => HeadAction::TagMode { mode },
                HeadEvent::Unsupported => HeadAction::UnsupportedEvent,
                _ => HeadAction::Applied,
            }
        }
    }

    /// Whether mode events of a mode recorded as belonging to `owner` reach
    /// a known head.
    pub open spec fn owner_known(self, owner: Option<u32>) -> bool {
        match owner {
            Some(h) => self.heads.contains_key(h),
            None => false,
        }
    }

    /// The state after the event `e` of the mode `mode`, recorded as
    /// belonging to the head `owner`: where no known head owns it, nothing
    /// changes.
    pub open spec fn after_mode_event(self, owner: Option<u32>, mode: u32, e: ModeEvent) -> StateView {
        if self.owner_known(owner) {
            let h = owner->0;
            StateView { heads: self.heads.insert(h, self.heads[h].after_mode_event(mode, e)), ..self }
        } else {
            self
        }
    }

    /// What the caller is to do after the event `e` of a mode recorded as
    /// belonging to `owner`.
    pub open spec fn mode_action(self, owner: Option<u32>, e: ModeEvent) -> ModeAction {
        if self.owner_known(owner) && e == ModeEvent::Finished {
            ModeAction::Release
        } else {
            ModeAction::Keep
        }
    }
}

/// Inserting a head and then viewing is viewing and then inserting.
pub proof fn lemma_heads_view_insert(m: Map<u32, OutputHead>, k: u32, h: OutputHead)
    ensures
        heads_view(m.insert(k, h)) == heads_view(m).insert(k, h@),
{
    assert(heads_view(m.insert(k, h)) =~= heads_view(m).insert(k, h@));
}

/// Removing a head and then viewing is viewing and then removing.
pub proof fn lemma_heads_view_remove(m: Map<u32, OutputHead>, k: u32)
    ensures
        heads_view(m.remove(k)) == heads_view(m).remove(k),
{
    assert(heads_view(m.remove(k)) =~= heads_view(m).remove(k));
}

impl State {
    /// No heads, no manager.
    pub fn new() -> (s: State)
        ensures
            s@ == StateView::initial(),
    {
        let s = State { output_heads: HashMap::new(), output_manager: None, output_manager_serial: 0 };
        assert(s@.heads =~= Map::<u32, HeadView>::empty());
        s
    }

    /// Records `manager` as the bound output manager object.
    pub fn set_output_manager(&mut self, manager: u32)
        ensures
            final(self)@ == (StateView { output_manager: Some(manager), ..old(self)@ }),
    {
        self.output_manager = Some(manager);
    }

    /// Adds the head `head` with nothing announced about it yet, replacing
    /// any head of that id.
    pub fn add_head(&mut self, head: u32)
        ensures
            final(self)@ == old(self)@.with_head(head),
    {
        let ghost before = self.output_heads@;
        let h = OutputHead::new();
        self.output_heads.insert(head, h);
        proof {
            lemma_heads_view_insert(before, head, h);
        }
    }

    /// Handles an event of the output manager.
    pub fn handle_manager_event(&mut self, e: ManagerEvent)
        ensures
            final(self)@ == old(self)@.after_manager_event(e),
    {
        match e {
            ManagerEvent::Head { head } => self.add_head(head),
            ManagerEvent::Done { serial } => self.output_manager_serial = serial,
            ManagerEvent::Finished => {
                self.output_manager = None;
                self.output_manager_serial = 0;
            },
        }
    }

    /// Handles the event `e` of the head `head`, and says what is to be
    /// done with the head object.
    pub fn handle_head_event(&mut self, head: u32, e: HeadEvent) -> (action: HeadAction)
        ensures
            final(self)@ == old(self)@.after_head_event(head, e),
            action == old(self)@.head_action(head, e),
    {
        let ghost before = self.output_heads@;
        match self.output_heads.remove(&head) {
            None => {
                assert(self.output_heads@ =~= before);
                HeadAction::UnknownHead
            },
            Some(mut h) => {
                proof {
                    lemma_heads_view_remove(before, head);
                }
                match e {
                    HeadEvent::Finished => HeadAction::Release,
                    _ => {
                        let action = match &e {
                            HeadEvent::Mode { mode } => HeadAction::TagMode { mode: *mode },
                            HeadEvent::Unsupported => HeadAction::UnsupportedEvent,
                            _ => HeadAction::Applied,
                        };
                        h.apply_event(e);
                        let ghost removed = self.output_heads@;
                        self.output_heads.insert(head, h);
                        proof {
                            lemma_heads_view_insert(removed, head, h);
                            assert(heads_view(before).remove(head).insert(head, h@) =~= heads_view(
                                before,
                            ).insert(head, h@));
                        }
                        action
                    },
                }
            },
        }
    }

    /// Handles the event `e` of the mode `mode`, which the mode object
    /// records as belonging to the head `owner`, and says what is to be
    /// done with the mode object.
    pub fn handle_mode_event(&mut self, owner: Option<u32>, mode: u32, e: ModeEvent) -> (action:
        ModeAction)
        ensures
            final(self)@ == old(self)@.after_mode_event(owner, mode, e),
            action == old(self)@.mode_action(owner, e),
    {
        let head = match owner {
            Some(head) => head,
            None => {
                return ModeAction::Keep;
            },
        };
        let ghost before = self.output_heads@;
        match self.output_heads.remove(&head) {
            None => {
                assert(self.output_heads@ =~= before);
                ModeAction::Keep
            },
            Some(mut h) => {
                proof {
                    lemma_heads_view_remove(before, head);
                }
                h.apply_mode_event(mode, e);
                let ghost removed = self.output_heads@;
                self.output_heads.insert(head, h);
                proof {
                    lemma_heads_view_insert(removed, head, h);
                    assert(heads_view(before).remove(head).insert(head, h@) =~= heads_view(
                        before,
                    ).insert(head, h@));
                }
                match e {
                    ModeEvent::Finished => ModeAction::Release,
                    _ => ModeAction::Keep,
                }
            },
        }
    }
}

/// An event of one head leaves every other head as it was.
pub proof fn lemma_head_event_leaves_other_heads(s: StateView, head: u32, e: HeadEvent, other: u32)
    requires
        other != head,
    ensures
        s.after_head_event(head, e).heads.contains_key(other) == s.heads.contains_key(other),
        s.heads.contains_key(other) ==> s.after_head_event(head, e).heads[other] == s.heads[other],
{
}

/// An event of a mode leaves every head but its owner as it was.
pub proof fn lemma_mode_event_leaves_other_heads(
    s: StateView,
    owner: Option<u32>,
    mode: u32,
    e: ModeEvent,
    other: u32,
)
    requires
        owner != Some(other),
    ensures
        s.after_mode_event(owner, mode, e).heads.contains_key(other) == s.heads.contains_key(other),
        s.heads.contains_key(other) ==> s.after_mode_event(owner, mode, e).heads[other]
            == s.heads[other],
{
}

/// A head that the manager announces and that then finishes leaves the
/// heads as they were without it.
pub proof fn lemma_announced_then_finished(s: StateView, head: u32)
    ensures
        s.after_manager_event(ManagerEvent::Head { head }).after_head_event(
            head,
            HeadEvent::Finished,
        ).heads == s.heads.remove(head),
{
    assert(s.heads.insert(head, HeadView::initial()).remove(head) =~= s.heads.remove(head));
}

/// A mode that a known head announces and that then finishes leaves that
/// head's modes as they were without it, and the head otherwise unchanged.
pub proof fn lemma_mode_announced_then_finished(s: StateView, head: u32, mode: u32)
    requires
        s.heads.contains_key(head),
    ensures
        ({
            let after = s.after_head_event(head, HeadEvent::Mode { mode }).after_mode_event(
                Some(head),
                mode,
                ModeEvent::Finished,
            );
            &&& after.heads.dom() == s.heads.dom()
            &&& after.heads[head] == (HeadView { modes: s.heads[head].modes.remove(mode), ..s.heads[head] })
        }),
{
    let h = s.heads[head];
    assert(h.modes.insert(mode, OutputMode::initial()).remove(mode) =~= h.modes.remove(mode));
    let after = s.after_head_event(head, HeadEvent::Mode { mode }).after_mode_event(
        Some(head),
        mode,
        ModeEvent::Finished,
    );
    assert(after.heads.dom() =~= s.heads.dom());
}

/// Once the manager finishes, no manager is bound and the serial is 0,
/// whatever came before.
pub proof fn lemma_manager_finished_resets(s: StateView)
    ensures
        s.after_manager_event(ManagerEvent::Finished).output_manager is None,
        s.after_manager_event(ManagerEvent::Finished).output_manager_serial == 0,
        s.after_manager_event(ManagerEvent::Finished).heads == s.heads,
{
}

/// A head that finishes is dropped, whatever it holds, and the caller is
/// told to release its object exactly when the head was known.
pub proof fn lemma_finished_head_is_dropped(s: StateView, head: u32)
    ensures
        !s.after_head_event(head, HeadEvent::Finished).heads.contains_key(head),
        (s.head_action(head, HeadEvent::Finished) == HeadAction::Release) == s.heads.contains_key(
            head,
        ),
{
}

/// A head that the manager announces is known afterwards and holds nothing
/// yet: no name or other text, no size, disabled, no modes, at the origin,
/// untransformed, at scale 1 and with adaptive sync off. The other heads,
/// the manager and the serial stay as they were.
pub proof fn lemma_announced_head_is_blank(s: StateView, head: u32, other: u32)
    requires
        other != head,
    ensures
        ({
            let a = s.after_manager_event(ManagerEvent::Head { head });
            let h = a.heads[head];
            &&& a.heads.contains_key(head)
            &&& h.name is None && h.description is None && h.physical_size is None
            &&& !h.enabled && h.modes.dom().is_empty() && h.current_mode is None
            &&& h.position == (0i32, 0i32) && h.transform.deg == 0 && !h.transform.flipped
            &&& h.scale == 256
            &&& h.manufacturer is None && h.model is None && h.serial_number is None
            &&& !h.adaptive_sync
            &&& a.heads.contains_key(other) == s.heads.contains_key(other)
            &&& s.heads.contains_key(other) ==> a.heads[other] == s.heads[other]
            &&& a.output_manager == s.output_manager
            &&& a.output_manager_serial == s.output_manager_serial
        }),
{
    crate::output::lemma_initial_head_is_blank();
}

/// A `done` event records its serial and changes nothing else.
pub proof fn lemma_done_records_serial(s: StateView, serial: u32)
    ensures
        s.after_manager_event(ManagerEvent::Done { serial }).output_manager_serial == serial,
        s.after_manager_event(ManagerEvent::Done { serial }).heads == s.heads,
        s.after_manager_event(ManagerEvent::Done { serial }).output_manager == s.output_manager,
{
}

/// The daemon binds the `zwlr_output_manager_v1` global and no other, and
/// binds it in the smaller of the announced version and 4: never above what
/// the compositor offers, and in exactly the offered version when that is
/// at most 4.
pub proof fn lemma_bind_version_is_capped(interface: Seq<char>, version: u32)
    ensures
        bind_version(interface, version) is Some <==> interface == "zwlr_output_manager_v1"@,
        bind_version(interface, version) matches Some(v) ==> {
            &&& v <= version
            &&& v <= 4
            &&& version <= 4 ==> v == version
            &&& version >= 4 ==> v == 4
        },
{
}

} // verus!

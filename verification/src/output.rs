//! One output head as the compositor describes it through the
//! wlr-output-management protocol, and the updates that the head and mode
//! events make to it.
//!
//! Wayland objects are identified by their protocol id: a head is the
//! `u32` id of its `zwlr_output_head_v1` object, a mode the id of its
//! `zwlr_output_mode_v1` object.

use std::collections::HashMap;
use vstd::prelude::*;

verus! {

/// A video mode that an output supports.
#[derive(Debug, Clone, Copy)]
pub struct OutputMode {
    /// Width and height in physical pixels.
    pub size: (i32, i32),
    /// Refresh rate in mHz.
    pub refresh: i32,
    /// Whether the compositor marks this mode as the preferred one.
    pub preferred: bool,
}

impl OutputMode {
    /// A mode about which nothing has been announced yet.
    pub open spec fn initial() -> OutputMode {
        OutputMode { size: (0, 0), refresh: 0, preferred: false }
    }

    /// A mode about which nothing has been announced yet.
    pub fn new() -> (m: OutputMode)
        ensures
            m == OutputMode::initial(),
    {
        OutputMode { size: (0, 0), refresh: 0, preferred: false }
    }
}

/// The wl_output transform values that a head can announce.
#[derive(Debug, Clone, Copy, PartialEq, Eq, Structural)]
pub enum Transform {
    Normal,
    Rotated90,
    Rotated180,
    Rotated270,
    Flipped,
    Flipped90,
    Flipped180,
    Flipped270,
}

impl Transform {
    /// The counter-clockwise rotation of the transform, in degrees.
    pub open spec fn degrees(self) -> u32 {
        match self {
            Transform::Normal | Transform::Flipped => 0,
            Transform::Rotated90 | Transform::Flipped90 => 90,
            Transform::Rotated180 | Transform::Flipped180 => 180,
            Transform::Rotated270 | Transform::Flipped270 => 270,
        }
    }

    /// Whether the transform mirrors the output around its vertical axis.
    pub open spec fn is_flipped(self) -> bool {
        match self {
            Transform::Normal | Transform::Rotated90 | Transform::Rotated180
            | Transform::Rotated270 => false,
            _ => true,
        }
    }
}

/// The transform of an output, split into a rotation and a flip.
#[derive(Debug, Clone, Copy, PartialEq, Eq, Structural)]
pub struct OutputTransform {
    /// Rotation in degrees: 0, 90, 180 or 270.
    pub deg: u32,
    /// Whether the output is mirrored before it is rotated.
    pub flipped: bool,
}

impl OutputTransform {
    /// The untransformed output.
    pub open spec fn identity() -> OutputTransform {
        OutputTransform { deg: 0, flipped: false }
    }

    /// The rotation and flip that `t` stands for.
    pub fn from_transform(t: Transform) -> (r: OutputTransform)
        ensures
            r.deg == t.degrees(),
            r.flipped == t.is_flipped(),
    {
        let (deg, flipped): (u32, bool) = match t {
            Transform::Normal => (0, false),
            Transform::Rotated90 => (90, false),
            Transform::Rotated180 => (180, false),
            Transform::Rotated270 => (270, false),
            Transform::Flipped => (0, true),
            Transform::Flipped90 => (90, true),
            Transform::Flipped180 => (180, true),
            Transform::Flipped270 => (270, true),
        };
        OutputTransform { deg, flipped }
    }
}

/// The text of an optional string.
pub open spec fn text_of(s: Option<String>) -> Option<Seq<char>> {
    match s {
        Some(s) => Some(s@),
        None => None,
    }
}

/// An output head (a connector with a possible monitor) and what the
/// compositor has announced about it.
#[derive(Debug)]
pub struct OutputHead {
    pub name: Option<String>,
    pub description: Option<String>,
    /// Physical width and height in millimetres.
    pub physical_size: Option<(i32, i32)>,
    pub enabled: bool,
    /// The modes of the head, by the id of their mode object.
    pub modes: HashMap<u32, OutputMode>,
    /// The id of the mode that the head currently uses.
    pub current_mode: Option<u32>,
    /// Position of the head in the global compositor space.
    pub position: (i32, i32),
    pub transform: OutputTransform,
    /// The scale factor as a wl_fixed value: the factor times 256.
    pub scale: i32,
    pub manufacturer: Option<String>,
    pub model: Option<String>,
    pub serial_number: Option<String>,
    pub adadptive_sync: bool,
}

/// What an [`OutputHead`] holds, with its strings as text and its modes
/// as a map.
pub struct HeadView {
    pub name: Option<Seq<char>>,
    pub description: Option<Seq<char>>,
    pub physical_size: Option<(i32, i32)>,
    pub enabled: bool,
    pub modes: Map<u32, OutputMode>,
    pub current_mode: Option<u32>,
    pub position: (i32, i32),
    pub transform: OutputTransform,
    pub scale: i32,
    pub manufacturer: Option<Seq<char>>,
    pub model: Option<Seq<char>>,
    pub serial_number: Option<Seq<char>>,
    pub adaptive_sync: bool,
}

impl View for OutputHead {
    type V = HeadView;

    open spec fn view(&self) -> HeadView {
        HeadView {
            name: text_of(self.name),
            description: text_of(self.description),
            physical_size: self.physical_size,
            enabled: self.enabled,
            modes: self.modes@,
            current_mode: self.current_mode,
            position: self.position,
            transform: self.transform,
            scale: self.scale,
            manufacturer: text_of(self.manufacturer),
            model: text_of(self.model),
            serial_number: text_of(self.serial_number),
            adaptive_sync: self.adadptive_sync,
        }
    }
}

/// An event of a `zwlr_output_head_v1` object, with its arguments as
/// plain values.
#[derive(Debug)]
pub enum HeadEvent {
    Name { name: String },
    Description { description: String },
    PhysicalSize { width: i32, height: i32 },
    /// A new mode object, by its id, belongs to the head.
    Mode { mode: u32 },
    Enabled { enabled: i32 },
    CurrentMode { mode: u32 },
    Position { x: i32, y: i32 },
    /// The new transform; `None` for a value that the protocol does not
    /// define.
    Transform { transform: Option<Transform> },
    /// The scale factor as a wl_fixed value: the factor times 256.
    Scale { scale: i32 },
    Make { make: String },
    Model { model: String },
    SerialNumber { serial_number: String },
    /// The adaptive sync state; `None` for a value that the protocol does
    /// not define.
    AdaptiveSync { state: Option<bool> },
    /// The head is gone.
    Finished,
    /// An event that this daemon does not handle.
    Unsupported,
}

/// An event of a `zwlr_output_mode_v1` object.
#[derive(Debug, Clone, Copy, PartialEq, Eq, Structural)]
pub enum ModeEvent {
    Size { width: i32, height: i32 },
    Refresh { refresh: i32 },
    Preferred,
    /// The mode is gone.
    Finished,
}

impl HeadView {
    /// A head about which nothing has been announced yet.
    pub open spec fn initial() -> HeadView {
        HeadView {
            name: None,
            description: None,
            physical_size: None,
            enabled: false,
            modes: Map::empty(),
            current_mode: None,
            position: (0, 0),
            transform: OutputTransform::identity(),
            scale: 256,
            manufacturer: None,
            model: None,
            serial_number: None,
            adaptive_sync: false,
        }
    }

    /// The head after `e`; `Finished` and `Unsupported` leave it as it is,
    /// since they concern the head's place among the others.
    pub open spec fn after_event(self, e: HeadEvent) -> HeadView {
        match e {
            HeadEvent::Name { name } => HeadView { name: Some(name@), ..self },
            HeadEvent::Description { description } => HeadView {
                description: Some(description@),
                ..self
            },
            HeadEvent::PhysicalSize { width, height } => HeadView {
                physical_size: Some((width, height)),
                ..self
            },
            HeadEvent::Mode { mode } => HeadView {
                modes: self.modes.insert(mode, OutputMode::initial()),
                ..self
            },
            HeadEvent::Enabled { enabled } => HeadView { enabled: enabled != 0, ..self },
            HeadEvent::CurrentMode { mode } => HeadView { current_mode: Some(mode), ..self },
            HeadEvent::Position { x, y } => HeadView { position: (x, y), ..self },
            HeadEvent::Transform { transform } => match transform {
                Some(t) => HeadView {
                    transform: OutputTransform { deg: t.degrees(), flipped: t.is_flipped() },
                    ..self
                },
                None => self,
            },
            HeadEvent::Scale { scale } => HeadView { scale, ..self },
            HeadEvent::Make { make } => HeadView { manufacturer: Some(make@), ..self },
            HeadEvent::Model { model } => HeadView { model: Some(model@), ..self },
            HeadEvent::SerialNumber { serial_number } => HeadView {
                serial_number: Some(serial_number@),
                ..self
            },
            HeadEvent::AdaptiveSync { state } => match state {
                Some(on) => HeadView { adaptive_sync: on, ..self },
                None => self,
            },
            HeadEvent::Finished => self,
            HeadEvent::Unsupported => self,
        }
    }

    /// The mode `mode` as it stands before an event of it: as announced, or
    /// fresh where the head does not know it yet.
    pub open spec fn mode_or_initial(self, mode: u32) -> OutputMode {
        if self.modes.contains_key(mode) {
            self.modes[mode]
        } else {
            OutputMode::initial()
        }
    }

    /// The head after event `e` of its mode `mode`. A mode that the head
    /// did not know is added first; `Finished` removes it.
    pub open spec fn after_mode_event(self, mode: u32, e: ModeEvent) -> HeadView {
        let m = self.mode_or_initial(mode);
        match e {
            ModeEvent::Size { width, height } => HeadView {
                modes: self.modes.insert(mode, OutputMode { size: (width, height), ..m }),
                ..self
            },
            ModeEvent::Refresh { refresh } => HeadView {
                modes: self.modes.insert(mode, OutputMode { refresh, ..m }),
                ..self
            },
            ModeEvent::Preferred => HeadView {
                modes: self.modes.insert(mode, OutputMode { preferred: true, ..m }),
                ..self
            },
            ModeEvent::Finished => HeadView { modes: self.modes.remove(mode), ..self },
        }
    }
}

impl OutputHead {
    /// A head about which nothing has been announced yet.
    pub fn new() -> (h: OutputHead)
        ensures
            h@ == HeadView::initial(),
    {
        OutputHead {
            name: None,
            description: None,
            physical_size: None,
            enabled: false,
            modes: HashMap::new(),
            current_mode: None,
            position: (0, 0),
            transform: OutputTransform { deg: 0, flipped: false },
            scale: 256,
            manufacturer: None,
            model: None,
            serial_number: None,
            adadptive_sync: false,
        }
    }

    /// Adds the mode `mode` with nothing announced about it yet; a mode of
    /// that id that the head had is replaced.
    pub fn add_mode(&mut self, mode: u32)
        ensures
            final(self)@ == (HeadView {
                modes: old(self)@.modes.insert(mode, OutputMode::initial()),
                ..old(self)@
            }),
    {
        self.modes.insert(mode, OutputMode::new());
    }

    /// Applies `e` to the head: the field that the event names takes its
    /// value, and nothing else changes.
    pub fn apply_event(&mut self, e: HeadEvent)
        ensures
            final(self)@ == old(self)@.after_event(e),
    {
        match e {
            HeadEvent::Name { name } => self.name = Some(name),
            HeadEvent::Description { description } => self.description = Some(description),
            HeadEvent::PhysicalSize { width, height } => self.physical_size = Some((width, height)),
            HeadEvent::Mode { mode } => self.add_mode(mode),
            HeadEvent::Enabled { enabled } => self.enabled = enabled != 0,
            HeadEvent::CurrentMode { mode } => self.current_mode = Some(mode),
            HeadEvent::Position { x, y } => self.position = (x, y),
            HeadEvent::Transform { transform } => {
                if let Some(t) = transform {
                    self.transform = OutputTransform::from_transform(t);
                }
            },
            HeadEvent::Scale { scale } => self.scale = scale,
            HeadEvent::Make { make } => self.manufacturer = Some(make),
            HeadEvent::Model { model } => self.model = Some(model),
            HeadEvent::SerialNumber { serial_number } => self.serial_number = Some(serial_number),
            HeadEvent::AdaptiveSync { state } => {
                if let Some(on) = state {
                    self.adadptive_sync = on;
                }
            },
            HeadEvent::Finished => {},
            HeadEvent::Unsupported => {},
        }
    }

    /// Applies event `e` of the mode `mode` to the head.
    pub fn apply_mode_event(&mut self, mode: u32, e: ModeEvent)
        ensures
            final(self)@ == old(self)@.after_mode_event(mode, e),
    {
        let ghost before = self.modes@;
        let mut m = match self.modes.remove(&mode) {
            Some(m) => m,
            None => OutputMode::new(),
        };
        assert(m == old(self)@.mode_or_initial(mode));
        assert forall|n: OutputMode| #[trigger] before.remove(mode).insert(mode, n) == before.insert(mode, n) by {
            assert(before.remove(mode).insert(mode, n) =~= before.insert(mode, n));
        }
        match e {
            ModeEvent::Size { width, height } => {
                m.size = (width, height);
                self.modes.insert(mode, m);
            },
            ModeEvent::Refresh { refresh } => {
                m.refresh = refresh;
                self.modes.insert(mode, m);
            },
            ModeEvent::Preferred => {
                m.preferred = true;
                self.modes.insert(mode, m);
            },
            ModeEvent::Finished => {},
        }
    }
}

/// Every transform rotates by a multiple of 90 degrees below 360, and the
/// eight transforms are the eight pairs of such a rotation and a flip.
pub proof fn lemma_transform_is_rotation_and_flip(t: Transform, u: Transform)
    ensures
        t.degrees() % 90 == 0,
        t.degrees() < 360,
        (t.degrees() == u.degrees() && t.is_flipped() == u.is_flipped()) <==> t == u,
{
}

/// The rotation and flip of each of the eight transforms: `Normal`,
/// `Rotated90`, `Rotated180` and `Rotated270` turn by 0, 90, 180 and 270
/// degrees without a flip, and the `Flipped` ones turn by the same angles
/// after a flip.
pub proof fn lemma_transform_table(t: Transform)
    ensures
        t == Transform::Normal ==> t.degrees() == 0 && !t.is_flipped(),
        t == Transform::Rotated90 ==> t.degrees() == 90 && !t.is_flipped(),
        t == Transform::Rotated180 ==> t.degrees() == 180 && !t.is_flipped(),
        t == Transform::Rotated270 ==> t.degrees() == 270 && !t.is_flipped(),
        t == Transform::Flipped ==> t.degrees() == 0 && t.is_flipped(),
        t == Transform::Flipped90 ==> t.degrees() == 90 && t.is_flipped(),
        t == Transform::Flipped180 ==> t.degrees() == 180 && t.is_flipped(),
        t == Transform::Flipped270 ==> t.degrees() == 270 && t.is_flipped(),
{
}

/// A head that nothing has been announced about: no name, description,
/// size, manufacturer, model or serial number, disabled, no modes and no
/// current mode, at the origin, untransformed, at scale 1 (256 as a
/// wl_fixed value), and with adaptive sync off.
pub proof fn lemma_initial_head_is_blank()
    ensures
        ({
            let h = HeadView::initial();
            &&& h.name is None
            &&& h.description is None
            &&& h.physical_size is None
            &&& !h.enabled
            &&& h.modes.dom().is_empty()
            &&& h.current_mode is None
            &&& h.position == (0i32, 0i32)
            &&& h.transform.deg == 0
            &&& !h.transform.flipped
            &&& h.scale == 256
            &&& h.manufacturer is None
            &&& h.model is None
            &&& h.serial_number is None
            &&& !h.adaptive_sync
        }),
{
    assert(HeadView::initial().modes.dom() =~= Set::<u32>::empty());
}

/// Each field of a head changes only under the event of the same name, and
/// then takes the value that the event carries; every other event leaves
/// it as it was. A transform or adaptive sync value that the protocol does
/// not define changes nothing.
pub proof fn lemma_event_sets_only_its_field(v: HeadView, e: HeadEvent)
    ensures
        ({
            let a = v.after_event(e);
            &&& a.name == match e {
                HeadEvent::Name { name } => Some(name@),
                _ => v.name,
            }
            &&& a.description == match e {
                HeadEvent::Description { description } => Some(description@),
                _ => v.description,
            }
            &&& a.physical_size == match e {
                HeadEvent::PhysicalSize { width, height } => Some((width, height)),
                _ => v.physical_size,
            }
            &&& a.enabled == match e {
                HeadEvent::Enabled { enabled } => enabled != 0,
                _ => v.enabled,
            }
            &&& a.modes == match e {
                HeadEvent::Mode { mode } => v.modes.insert(
                    mode,
                    OutputMode { size: (0i32, 0i32), refresh: 0i32, preferred: false },
                ),
                _ => v.modes,
            }
            &&& a.current_mode == match e {
                HeadEvent::CurrentMode { mode } => Some(mode),
                _ => v.current_mode,
            }
            &&& a.position == match e {
                HeadEvent::Position { x, y } => (x, y),
                _ => v.position,
            }
            &&& a.transform == match e {
                HeadEvent::Transform { transform: Some(t) } => OutputTransform {
                    deg: t.degrees(),
                    flipped: t.is_flipped(),
                },
                _ => v.transform,
            }
            &&& a.scale == match e {
                HeadEvent::Scale { scale } => scale,
                _ => v.scale,
            }
            &&& a.manufacturer == match e {
                HeadEvent::Make { make } => Some(make@),
                _ => v.manufacturer,
            }
            &&& a.model == match e {
                HeadEvent::Model { model } => Some(model@),
                _ => v.model,
            }
            &&& a.serial_number == match e {
                HeadEvent::SerialNumber { serial_number } => Some(serial_number@),
                _ => v.serial_number,
            }
            &&& a.adaptive_sync == match e {
                HeadEvent::AdaptiveSync { state: Some(on) } => on,
                _ => v.adaptive_sync,
            }
        }),
{
}

/// An event of the mode `mode` changes that mode alone, and of it only the
/// field that the event names: a mode the head did not know starts with a
/// size of 0 by 0, a refresh of 0 and not preferred; `Finished` removes the
/// mode. Every other field of the head stays as it was.
pub proof fn lemma_mode_event_sets_only_its_field(v: HeadView, mode: u32, e: ModeEvent)
    ensures
        ({
            let a = v.after_mode_event(mode, e);
            let (size, refresh, preferred) = if v.modes.contains_key(mode) {
                (v.modes[mode].size, v.modes[mode].refresh, v.modes[mode].preferred)
            } else {
                ((0i32, 0i32), 0i32, false)
            };
            &&& e == ModeEvent::Finished ==> !a.modes.contains_key(mode)
            &&& e != ModeEvent::Finished ==> a.modes.contains_key(mode)
            &&& e != ModeEvent::Finished ==> a.modes[mode].size == match e {
                ModeEvent::Size { width, height } => (width, height),
                _ => size,
            }
            &&& e != ModeEvent::Finished ==> a.modes[mode].refresh == match e {
                ModeEvent::Refresh { refresh } => refresh,
                _ => refresh,
            }
            &&& e != ModeEvent::Finished ==> a.modes[mode].preferred == (preferred || e
                == ModeEvent::Preferred)
            &&& forall|m: u32|
                m != mode ==> (#[trigger] a.modes.contains_key(m) == v.modes.contains_key(m) && (
                v.modes.contains_key(m) ==> a.modes[m] == v.modes[m]))
            &&& a.name == v.name && a.description == v.description
            &&& a.physical_size == v.physical_size && a.enabled == v.enabled
            &&& a.current_mode == v.current_mode && a.position == v.position
            &&& a.transform == v.transform && a.scale == v.scale
            &&& a.manufacturer == v.manufacturer && a.model == v.model
            &&& a.serial_number == v.serial_number && a.adaptive_sync == v.adaptive_sync
        }),
{
}

} // verus!

//! Window handles, window enumeration, and coordinate conversion. The OS
//! enumeration itself (walking top-level windows and reading their
//! attributes) happens in the unverified shell, which hands the library a
//! list of [`WindowRecord`] values; every filter and lookup over that
//! list is verified.

use vstd::prelude::*;

use vstd::utf8::encode_utf8;

verus! {

/// Platform-specific error.
#[derive(PartialEq, Clone, Debug)]
pub enum Error {
    KeyNotSent,
    KeyNotFound,
    KeyNotReceived,
    MouseNotSent,
    WindowNotFound,
    WindowInvalidSize,
    WindowFrameNotAvailable,
    PlatformNotSupported,
    Win32(u32, String),
}

/// One top-level window as the OS enumeration reports it.
#[derive(Clone, Debug)]
pub struct WindowRecord {
    /// The OS window handle value.
    pub id: u64,
    pub title: String,
    pub class_name: String,
    pub visible: bool,
    pub cloaked: bool,
    pub disabled: bool,
    pub tool_window: bool,
}

impl WindowRecord {
    /// Whether enumeration lists the window as a capture candidate:
    /// visible, not cloaked, not disabled, not a tool window, and with a
    /// non-empty title.
    pub open spec fn spec_listable(self) -> bool {
        &&& self.visible
        &&& !self.cloaked
        &&& !self.disabled
        &&& !self.tool_window
        &&& self.title@.len() > 0
    }

    pub fn listable(&self) -> (r: bool)
        ensures
            r == self.spec_listable(),
    {
        self.visible && !self.cloaked && !self.disabled && !self.tool_window
            && !self.title.as_str().is_empty()
    }
}

/// `p` is a prefix of `s`.
pub open spec fn spec_starts_with(s: Seq<u8>, p: Seq<u8>) -> bool {
    p.len() <= s.len() && s.subrange(0, p.len() as int) == p
}

fn bytes_starts_with(s: &[u8], p: &[u8]) -> (r: bool)
    ensures
        r == spec_starts_with(s@, p@),
{
    if p.len() > s.len() {
        assert(!spec_starts_with(s@, p@));
        return false;
    }
    let mut i: usize = 0;
    while i < p.len()
        invariant
            i <= p@.len(),
            p@.len() <= s@.len(),
            forall|j: int| 0 <= j < i ==> s@[j] == p@[j],
        decreases p@.len() - i,
    {
        if s[i] != p[i] {
            assert(s@.subrange(0, p@.len() as int)[i as int] != p@[i as int]);
            return false;
        }
        i = i + 1;
    }
    assert(s@.subrange(0, p@.len() as int) =~= p@);
    true
}

/// Whether the record's window class name starts with `class`, the test
/// a dynamic handle uses to recognize its window.
pub fn is_class_matched(record: &WindowRecord, class: &str) -> (r: bool)
    ensures
        r == spec_starts_with(encode_utf8(record.class_name@), encode_utf8(class@)),
{
    let name = record.class_name.as_str();
    bytes_starts_with(name.as_bytes(), class.as_bytes())
}

/// How a window handle is designated: a fixed OS handle value, or a
/// window class name prefix resolved dynamically against the enumeration.
#[derive(Debug, Clone, Copy, PartialEq, Eq)]
pub enum HandleKind {
    Fixed(u64),
    Dynamic(&'static str),
}

/// A platform-specific handle to a window on screen.
#[derive(Debug, Clone, Copy, PartialEq, Eq)]
pub struct Handle {
    kind: HandleKind,
}

/// The first record whose class name starts with `class`, if any: the
/// resolution of a dynamic handle.
pub open spec fn spec_query_handle(records: Seq<WindowRecord>, class: Seq<char>) -> Option<u64>
    decreases records.len(),
{
    if records.len() == 0 {
        None
    } else if spec_starts_with(encode_utf8(records[0].class_name@), encode_utf8(class)) {
        Some(records[0].id)
    } else {
        spec_query_handle(records.drop_first(), class)
    }
}

/// Finds the first enumerated window whose class name starts with
/// `class`.
pub fn query_handle(records: &Vec<WindowRecord>, class: &str) -> (r: Option<u64>)
    ensures
        r == spec_query_handle(records@, class@),
{
    let mut i: usize = 0;
    proof {
        assert(records@.skip(0) =~= records@);
    }
    while i < records.len()
        invariant
            i <= records@.len(),
            spec_query_handle(records@, class@) == spec_query_handle(
                records@.skip(i as int),
                class@,
            ),
        decreases records@.len() - i,
    {
        let matched = is_class_matched(&records[i], class);
        proof {
            assert(records@.skip(i as int)[0] == records@[i as int]);
            assert(records@.skip(i as int).drop_first() =~= records@.skip(i + 1));
        }
        if matched {
            return Some(records[i].id);
        }
        i = i + 1;
    }
    proof {
        assert(records@.skip(i as int).len() == 0);
    }
    None
}

impl Handle {
    pub closed spec fn spec_kind(self) -> HandleKind {
        self.kind
    }

    pub fn new(kind: HandleKind) -> (r: Self)
        ensures
            r.spec_kind() == kind,
    {
        Handle { kind }
    }

    /// The OS handle this designation currently stands for: a fixed
    /// handle as it is, a dynamic one resolved against the enumeration.
    pub fn as_inner(&self, records: &Vec<WindowRecord>) -> (r: Option<u64>)
        ensures
            r == match self.spec_kind() {
                HandleKind::Fixed(id) => Some(id),
                HandleKind::Dynamic(class) => spec_query_handle(records@, class@),
            },
    {
        match self.kind {
            HandleKind::Fixed(id) => Some(id),
            HandleKind::Dynamic(class) => query_handle(records, class),
        }
    }
}

/// A [`Handle`] with a cached resolution, revalidated on every read: the
/// cached handle is kept only while its record still matches the class.
#[derive(Clone, Debug)]
pub struct HandleCell {
    inner: Handle,
    cached: Option<u64>,
}

/// The record with OS handle value `id`, if any.
pub open spec fn spec_record_for(records: Seq<WindowRecord>, id: u64) -> Option<WindowRecord>
    decreases records.len(),
{
    if records.len() == 0 {
        None
    } else if records[0].id == id {
        Some(records[0])
    } else {
        spec_record_for(records.drop_first(), id)
    }
}

fn record_for(records: &Vec<WindowRecord>, id: u64) -> (r: Option<&WindowRecord>)
    ensures
        match r {
            Some(rec) => spec_record_for(records@, id) == Some(*rec),
            None => spec_record_for(records@, id) is None,
        },
{
    let mut i: usize = 0;
    proof {
        assert(records@.skip(0) =~= records@);
    }
    while i < records.len()
        invariant
            i <= records@.len(),
            spec_record_for(records@, id) == spec_record_for(records@.skip(i as int), id),
        decreases records@.len() - i,
    {
        proof {
            assert(records@.skip(i as int)[0] == records@[i as int]);
            assert(records@.skip(i as int).drop_first() =~= records@.skip(i + 1));
        }
        if records[i].id == id {
            return Some(&records[i]);
        }
        i = i + 1;
    }
    proof {
        assert(records@.skip(i as int).len() == 0);
    }
    None
}

impl HandleCell {
    pub closed spec fn spec_handle(self) -> Handle {
        self.inner
    }

    pub closed spec fn spec_cached(self) -> Option<u64> {
        self.cached
    }

    pub fn new(handle: Handle) -> (r: Self)
        ensures
            r.spec_handle() == handle,
            r.spec_cached() is None,
    {
        HandleCell { inner: handle, cached: None }
    }

    /// The OS handle this cell stands for. A fixed handle is returned as
    /// it is. A dynamic one is resolved once and cached; the cache is
    /// kept only while the enumerated record of that handle still
    /// matches the class, and is dropped otherwise.
    pub fn as_inner(&mut self, records: &Vec<WindowRecord>) -> (r: Option<u64>)
        ensures
            final(self).spec_handle() == old(self).spec_handle(),
            ({
                let kind = old(self).spec_handle().spec_kind();
                match kind {
                    HandleKind::Fixed(id) => r == Some(id),
                    HandleKind::Dynamic(class) => {
                        let cached = if old(self).spec_cached() is Some {
                            old(self).spec_cached()
                        } else {
                            spec_query_handle(records@, class@)
                        };
                        match cached {
                            None => r is None && final(self).spec_cached() is None,
                            Some(id) => {
                                let still = match spec_record_for(records@, id) {
                                    Some(rec) => spec_starts_with(
                                        encode_utf8(rec.class_name@),
                                        encode_utf8(class@),
                                    ),
                                    None => false,
                                };
                                if still {
                                    r == Some(id) && final(self).spec_cached() == Some(id)
                                } else {
                                    r is None && final(self).spec_cached() is None
                                }
                            },
                        }
                    },
                }
            }),
    {
        match self.inner.kind {
            HandleKind::Fixed(id) => Some(id),
            HandleKind::Dynamic(class) => {
                if self.cached.is_none() {
                    self.cached = query_handle(records, class);
                }
                match self.cached {
                    None => None,
                    Some(id) => {
                        let still = match record_for(records, id) {
                            Some(rec) => is_class_matched(rec, class),
                            None => false,
                        };
                        if still {
                            Some(id)
                        } else {
                            self.cached = None;
                            None
                        }
                    },
                }
            },
        }
    }
}

/// Relativeness of a point to be converted to.
#[derive(Debug, Clone, Copy, PartialEq, Eq, Structural)]
pub enum CoordinateRelative {
    /// Relative to the monitor of the window.
    Monitor,
    /// Relative to the client area of the window.
    Window,
}

/// Converted coordinates as selected by [`CoordinateRelative`].
#[derive(Debug, Clone, Copy, PartialEq, Eq, Structural)]
pub struct ConvertedCoordinates {
    /// The width of the monitor or client area.
    pub width: i32,
    /// The height of the monitor or client area.
    pub height: i32,
    /// x relative to the monitor or client area.
    pub x: i32,
    /// y relative to the monitor or client area.
    pub y: i32,
}

/// The window geometry the coordinate conversion reads, as the OS
/// reports it: the client area's size and its origin on the monitor, and
/// the monitor's size.
#[derive(Debug, Clone, Copy, PartialEq, Eq, Structural)]
pub struct WindowGeometry {
    pub client_width: i32,
    pub client_height: i32,
    pub client_origin_x: i32,
    pub client_origin_y: i32,
    pub monitor_width: i32,
    pub monitor_height: i32,
}

/// A platform-specific handle to a window on screen, together with the
/// geometry the unverified shell last read for it.
#[derive(Debug, Clone, Copy, PartialEq, Eq)]
pub struct Window {
    handle: Handle,
    geometry: Option<WindowGeometry>,
}

impl Window {
    pub closed spec fn spec_handle(self) -> Handle {
        self.handle
    }

    pub closed spec fn spec_geometry(self) -> Option<WindowGeometry> {
        self.geometry
    }

    /// A window designated by its class-name prefix; its geometry is not
    /// known yet.
    pub fn new(class: &'static str) -> (r: Self)
        ensures
            r.spec_handle().spec_kind() == HandleKind::Dynamic(class),
            r.spec_geometry() is None,
    {
        Window { handle: Handle::new(HandleKind::Dynamic(class)), geometry: None }
    }

    /// A window with a fixed OS handle, as enumeration hands them out.
    pub fn from_id(id: u64) -> (r: Self)
        ensures
            r.spec_handle().spec_kind() == HandleKind::Fixed(id),
            r.spec_geometry() is None,
    {
        Window { handle: Handle::new(HandleKind::Fixed(id)), geometry: None }
    }

    /// Records the geometry the shell read for this window.
    pub fn set_geometry(&mut self, geometry: WindowGeometry)
        ensures
            final(self).spec_handle() == old(self).spec_handle(),
            final(self).spec_geometry() == Some(geometry),
    {
        self.geometry = Some(geometry);
    }

    /// Converts a client-area point to monitor- or window-relative
    /// coordinates, with the dimensions of the chosen frame. Fails with
    /// `WindowNotFound` while no geometry is known, and with
    /// `WindowInvalidSize` if the monitor-relative point cannot be
    /// represented.
    pub fn convert_coordinate(&self, x: i32, y: i32, relative: CoordinateRelative) -> (r: Result<
        ConvertedCoordinates,
        Error,
    >)
        ensures
            self.spec_geometry() is None ==> r == Err::<ConvertedCoordinates, Error>(
                Error::WindowNotFound,
            ),
            ({
                self.spec_geometry() matches Some(g) ==> match relative {
                    CoordinateRelative::Window => r == Ok::<ConvertedCoordinates, Error>(
                        ConvertedCoordinates {
                            width: g.client_width,
                            height: g.client_height,
                            x,
                            y,
                        },
                    ),
                    CoordinateRelative::Monitor => {
                        let mx = x + g.client_origin_x;
                        let my = y + g.client_origin_y;
                        if i32::MIN <= mx <= i32::MAX && i32::MIN <= my <= i32::MAX {
                            r == Ok::<ConvertedCoordinates, Error>(
                                ConvertedCoordinates {
                                    width: g.monitor_width,
                                    height: g.monitor_height,
                                    x: mx as i32,
                                    y: my as i32,
                                },
                            )
                        } else {
                            r == Err::<ConvertedCoordinates, Error>(Error::WindowInvalidSize)
                        }
                    },
                }
            }),
    {
        let g = match self.geometry {
            Some(g) => g,
            None => {
                return Err(Error::WindowNotFound);
            },
        };
        match relative {
            CoordinateRelative::Window => Ok(
                ConvertedCoordinates { width: g.client_width, height: g.client_height, x, y },
            ),
            CoordinateRelative::Monitor => {
                let mx = (x as i64) + (g.client_origin_x as i64);
                let my = (y as i64) + (g.client_origin_y as i64);
                if mx < i32::MIN as i64 || mx > i32::MAX as i64 || my < i32::MIN as i64 || my
                    > i32::MAX as i64 {
                    Err(Error::WindowInvalidSize)
                } else {
                    Ok(
                        ConvertedCoordinates {
                            width: g.monitor_width,
                            height: g.monitor_height,
                            x: mx as i32,
                            y: my as i32,
                        },
                    )
                }
            },
        }
    }
}

/// The capture-candidate pairs of an enumeration: the title and handle
/// value of every listable record, in enumeration order.
pub open spec fn spec_capture_pairs(records: Seq<WindowRecord>) -> Seq<(Seq<char>, u64)>
    decreases records.len(),
{
    if records.len() == 0 {
        Seq::empty()
    } else {
        let rest = spec_capture_pairs(records.drop_first());
        if records[0].spec_listable() {
            seq![(records[0].title@, records[0].id)] + rest
        } else {
            rest
        }
    }
}

/// The capture-candidate windows: every visible, uncloaked, enabled,
/// non-tool window with a title, as (title, handle) pairs in enumeration
/// order.
pub fn query_capture_name_handle_pairs(records: &Vec<WindowRecord>) -> (r: Vec<(String, Handle)>)
    ensures
        r@.len() == spec_capture_pairs(records@).len(),
        forall|j: int|
            0 <= j < r@.len() ==> #[trigger] r@[j].0@ == spec_capture_pairs(records@)[j].0
                && r@[j].1.spec_kind() == HandleKind::Fixed(spec_capture_pairs(records@)[j].1),
{
    let mut out: Vec<(String, Handle)> = Vec::new();
    let mut i: usize = 0;
    proof {
        assert(records@.skip(0) =~= records@);
    }
    while i < records.len()
        invariant
            i <= records@.len(),
            out@.len() + spec_capture_pairs(records@.skip(i as int)).len() == spec_capture_pairs(
                records@,
            ).len(),
            forall|j: int|
                0 <= j < out@.len() ==> #[trigger] out@[j].0@ == spec_capture_pairs(records@)[j].0
                    && out@[j].1.spec_kind() == HandleKind::Fixed(
                    spec_capture_pairs(records@)[j].1,
                ),
            forall|j: int|
                0 <= j < spec_capture_pairs(records@.skip(i as int)).len()
                    ==> #[trigger] spec_capture_pairs(records@.skip(i as int))[j]
                    == spec_capture_pairs(records@)[out@.len() + j],
        decreases records@.len() - i,
    {
        let ghost pre = out@;
        let ghost tail = spec_capture_pairs(records@.skip(i as int));
        let ghost tail1 = spec_capture_pairs(records@.skip(i + 1));
        proof {
            assert(records@.skip(i as int)[0] == records@[i as int]);
            assert(records@.skip(i as int).drop_first() =~= records@.skip(i + 1));
            if records@[i as int].spec_listable() {
                assert(tail == seq![(records@[i as int].title@, records@[i as int].id)] + tail1);
            } else {
                assert(tail == tail1);
            }
        }
        if records[i].listable() {
            let title = records[i].title.clone();
            let handle = Handle::new(HandleKind::Fixed(records[i].id));
            out.push((title, handle));
            proof {
                assert(tail[0] == (records@[i as int].title@, records@[i as int].id));
                assert(spec_capture_pairs(records@)[pre.len() as int] == tail[0]);
                assert forall|j: int| 0 <= j < out@.len() implies #[trigger] out@[j].0@
                    == spec_capture_pairs(records@)[j].0 && out@[j].1.spec_kind()
                    == HandleKind::Fixed(spec_capture_pairs(records@)[j].1) by {
                    if j < pre.len() {
                        assert(out@[j] == pre[j]);
                    }
                }
                assert forall|j: int| 0 <= j < tail1.len() implies #[trigger] tail1[j]
                    == spec_capture_pairs(records@)[out@.len() + j] by {
                    assert(tail[j + 1] == tail1[j]);
                    assert(tail[j + 1] == spec_capture_pairs(records@)[pre.len() + (j + 1)]);
                }
            }
        } else {
            proof {
                assert forall|j: int| 0 <= j < tail1.len() implies #[trigger] tail1[j]
                    == spec_capture_pairs(records@)[out@.len() + j] by {
                    assert(tail[j] == tail1[j]);
                }
            }
        }
        i = i + 1;
    }
    proof {
        assert(records@.skip(i as int).len() == 0);
        assert(spec_capture_pairs(records@.skip(i as int)).len() == 0);
    }
    out
}

/// The capture-candidate windows as (title, window) pairs.
pub fn query_capture_name_window_pairs(records: &Vec<WindowRecord>) -> (r: Result<
    Vec<(String, Window)>,
    Error,
>)
    ensures
        r matches Ok(v) && v@.len() == spec_capture_pairs(records@).len(),
        r matches Ok(v) ==> forall|j: int|
            0 <= j < v@.len() ==> #[trigger] v@[j].0@ == spec_capture_pairs(records@)[j].0
                && v@[j].1.spec_handle().spec_kind() == HandleKind::Fixed(
                spec_capture_pairs(records@)[j].1,
            ),
{
    let pairs = query_capture_name_handle_pairs(records);
    let mut out: Vec<(String, Window)> = Vec::new();
    let mut i: usize = 0;
    while i < pairs.len()
        invariant
            i <= pairs@.len(),
            out@.len() == i,
            forall|j: int|
                0 <= j < i ==> #[trigger] out@[j].0@ == pairs@[j].0@ && out@[j].1.spec_handle()
                    == pairs@[j].1 && out@[j].1.spec_geometry() is None,
        decreases pairs@.len() - i,
    {
        let (title, handle) = (pairs[i].0.clone(), pairs[i].1);
        out.push((title, Window { handle, geometry: None }));
        i = i + 1;
    }
    Ok(out)
}

/// The titles of all capture-candidate windows, in enumeration order.
pub fn list_window_handles(records: &Vec<WindowRecord>) -> (r: Vec<String>)
    ensures
        r@.len() == spec_capture_pairs(records@).len(),
        forall|j: int|
            0 <= j < r@.len() ==> #[trigger] r@[j]@ == spec_capture_pairs(records@)[j].0,
{
    let pairs = query_capture_name_handle_pairs(records);
    let mut out: Vec<String> = Vec::new();
    let mut i: usize = 0;
    while i < pairs.len()
        invariant
            i <= pairs@.len(),
            out@.len() == i,
            forall|j: int| 0 <= j < i ==> #[trigger] out@[j]@ == pairs@[j].0@,
        decreases pairs@.len() - i,
    {
        out.push(pairs[i].0.clone());
        i = i + 1;
    }
    out
}


/// Which block-copy or compositor discipline a [`Capture`] binding uses:
/// a plain block copy of the window, a block copy of a movable capture
/// area, or the compositor-assisted capture with a frame timeout in
/// milliseconds. A closed set, selected at bind time and never mixed
/// within one active binding.
#[derive(Debug, Clone, Copy, PartialEq, Eq, Structural)]
pub enum WindowsCaptureKind {
    BitBlt,
    BitBltArea,
    Wgc(u64),
}

/// One active capture binding: a target window and the backend kind
/// constructed for it. The OS resources of a backend live in the
/// unverified shell; switching the kind or the target always tears the
/// previous backend down completely and constructs a fresh one — there
/// is no update in place.
#[derive(Debug, Clone, Copy)]
pub struct Capture {
    window: Window,
    kind: WindowsCaptureKind,
    /// Counts how many backends this binding has constructed, so the
    /// shell can pair each construction with exactly one teardown.
    generation: u64,
}

impl Capture {
    pub closed spec fn spec_window(self) -> Window {
        self.window
    }

    pub closed spec fn spec_kind(self) -> WindowsCaptureKind {
        self.kind
    }

    pub closed spec fn spec_generation(self) -> int {
        self.generation as int
    }

    /// Binds `window` with the default block-copy backend.
    pub fn new(window: Window) -> (r: Result<Self, Error>)
        ensures
            r matches Ok(c) && c.spec_window() == window && c.spec_kind()
                == WindowsCaptureKind::BitBlt && c.spec_generation() == 1,
    {
        Ok(Capture { window, kind: WindowsCaptureKind::BitBlt, generation: 1 })
    }

    /// The window this binding targets.
    pub fn window(&self) -> (r: Result<Window, Error>)
        ensures
            r == Ok::<Window, Error>(self.spec_window()),
    {
        Ok(self.window)
    }

    /// Retargets the binding: the previous backend is torn down and one
    /// of the same kind is constructed for the new window.
    pub fn set_window(&mut self, window: Window) -> (r: Result<(), Error>)
        requires
            old(self).spec_generation() < u64::MAX,
        ensures
            r is Ok,
            final(self).spec_window() == window,
            final(self).spec_kind() == old(self).spec_kind(),
            final(self).spec_generation() == old(self).spec_generation() + 1,
    {
        self.window = window;
        let kind = self.kind;
        self.windows_capture_kind(kind)
    }

    /// Switches the backend kind: the previous backend's resources are
    /// released completely before the new backend is constructed.
    pub fn windows_capture_kind(&mut self, kind: WindowsCaptureKind) -> (r: Result<(), Error>)
        requires
            old(self).spec_generation() < u64::MAX,
        ensures
            r is Ok,
            final(self).spec_kind() == kind,
            final(self).spec_window() == old(self).spec_window(),
            final(self).spec_generation() == old(self).spec_generation() + 1,
    {
        self.kind = kind;
        self.generation = self.generation + 1;
        Ok(())
    }
}


/// The first listable record whose title is exactly `title`, if any: the
/// resolution of a set-target request against the enumeration.
pub open spec fn spec_find_by_title(records: Seq<WindowRecord>, title: Seq<char>) -> Option<u64>
    decreases records.len(),
{
    if records.len() == 0 {
        None
    } else if records[0].spec_listable() && records[0].title@ == title {
        Some(records[0].id)
    } else {
        spec_find_by_title(records.drop_first(), title)
    }
}

/// Resolves a target title to its window: the first capture candidate
/// with exactly that title.
pub fn find_window_by_title(records: &Vec<WindowRecord>, title: &String) -> (r: Option<Window>)
    ensures
        match r {
            Some(w) => (spec_find_by_title(records@, title@) matches Some(id)
                && w.spec_handle().spec_kind() == HandleKind::Fixed(id) && w.spec_geometry()
                is None),
            None => spec_find_by_title(records@, title@) is None,
        },
{
    let mut i: usize = 0;
    proof {
        assert(records@.skip(0) =~= records@);
    }
    while i < records.len()
        invariant
            i <= records@.len(),
            spec_find_by_title(records@, title@) == spec_find_by_title(
                records@.skip(i as int),
                title@,
            ),
        decreases records@.len() - i,
    {
        proof {
            assert(records@.skip(i as int)[0] == records@[i as int]);
            assert(records@.skip(i as int).drop_first() =~= records@.skip(i + 1));
        }
        if records[i].listable() && records[i].title == *title {
            return Some(Window::from_id(records[i].id));
        }
        i = i + 1;
    }
    proof {
        assert(records@.skip(i as int).len() == 0);
    }
    None
}

} // verus!

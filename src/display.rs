use vstd::prelude::*;

verus! {

/// The flag bit that the monitor query sets on the main output.
pub const MONITOR_PRIMARY_FLAG: u32 = 1;

/// Whether a display is the system's main output.
#[derive(Debug, Clone, Copy, PartialEq, Eq, Structural)]
pub enum DisplayKind {
    Primary,
    Standard,
}

/// What the operating system reports of one monitor: its full rectangle, in
/// virtual-screen coordinates, and its flag bits.
#[derive(Debug, Clone, Copy, PartialEq, Eq, Structural)]
pub struct MonitorInfo {
    pub left: i32,
    pub top: i32,
    pub right: i32,
    pub bottom: i32,
    pub flags: u32,
}

/// One monitor met while enumerating: its handle, and its information when
/// the query for it succeeded, else the platform's error code for the query.
#[derive(Debug, Clone, Copy, PartialEq, Eq, Structural)]
pub struct MonitorQuery {
    pub handle: u64,
    pub info: Option<MonitorInfo>,
    pub os_error: i32,
}

/// The platform reported a failure while listing displays; `code` is its
/// error code.
#[derive(Debug, Clone, Copy, PartialEq, Eq, Structural)]
pub struct EnumerationError {
    pub code: i32,
}

/// A physical monitor: an opaque platform handle, its top-left offset and its
/// size in pixels. A plain value that owns no native resource.
#[derive(Debug, Clone, Copy, PartialEq, Eq, Structural)]
pub struct Display {
    pub handle: u64,
    pub x: i32,
    pub y: i32,
    pub width: u32,
    pub height: u32,
    pub kind: DisplayKind,
}

/// Displays handed out one at a time, in the order the platform listed them.
#[derive(Debug)]
pub struct Displays {
    items: Vec<Display>,
    next: usize,
}

/// The extent from `lo` to `hi`, taken modulo 2^32 as an unsigned count.
pub open spec fn extent(lo: i32, hi: i32) -> u32 {
    let d = hi as int - lo as int;
    if d >= 0 {
        d as u32
    } else {
        (d + 0x1_0000_0000) as u32
    }
}

pub open spec fn kind_of_flags(flags: u32) -> DisplayKind {
    if flags == MONITOR_PRIMARY_FLAG {
        DisplayKind::Primary
    } else {
        DisplayKind::Standard
    }
}

/// The display that a monitor's reported information describes.
pub open spec fn display_of(info: MonitorInfo, handle: u64) -> Display {
    Display {
        handle,
        x: info.left,
        y: info.top,
        width: extent(info.left, info.right),
        height: extent(info.top, info.bottom),
        kind: kind_of_flags(info.flags),
    }
}

/// The displays of those monitors whose query succeeded, in enumeration order.
pub open spec fn displays_of(found: Seq<MonitorQuery>) -> Seq<Display>
    decreases found.len(),
{
    if found.len() == 0 {
        Seq::empty()
    } else {
        let rest = displays_of(found.drop_last());
        match found.last().info {
            Some(info) => rest.push(display_of(info, found.last().handle)),
            None => rest,
        }
    }
}

/// Whether every monitor met answered its query.
pub open spec fn all_answered(found: Seq<MonitorQuery>) -> bool {
    forall|i: int| 0 <= i < found.len() ==> (#[trigger] found[i]).info is Some
}

/// The error of the first monitor whose query failed, where one did.
pub open spec fn first_failure(found: Seq<MonitorQuery>, code: i32) -> bool {
    exists|i: int|
        0 <= i < found.len() && (#[trigger] found[i]).info is None && found[i].os_error == code
            && forall|j: int| 0 <= j < i ==> (#[trigger] found[j]).info is Some
}

/// How many of the monitors met answered their query.
pub open spec fn answered(found: Seq<MonitorQuery>) -> nat
    decreases found.len(),
{
    if found.len() == 0 {
        0
    } else {
        answered(found.drop_last()) + if found.last().info is Some {
            1nat
        } else {
            0nat
        }
    }
}

/// How many of the monitors met answered their query with the primary flag.
pub open spec fn answered_primary(found: Seq<MonitorQuery>) -> nat
    decreases found.len(),
{
    if found.len() == 0 {
        0
    } else {
        answered_primary(found.drop_last()) + match found.last().info {
            Some(i) => if i.flags == MONITOR_PRIMARY_FLAG {
                1nat
            } else {
                0nat
            },
            None => 0nat,
        }
    }
}

/// How many displays of `ds` are primary.
pub open spec fn primaries(ds: Seq<Display>) -> nat
    decreases ds.len(),
{
    if ds.len() == 0 {
        0
    } else {
        primaries(ds.drop_last()) + if ds.last().kind == DisplayKind::Primary {
            1nat
        } else {
            0nat
        }
    }
}

/// The enumeration yields one display for each monitor that answered its
/// query, and as many primary displays as monitors that the platform flagged
/// primary. So a successful enumeration has one display per monitor met, is
/// non-empty as soon as one monitor was met, and holds exactly one primary
/// display when exactly one monitor is flagged so.
pub proof fn lemma_enumeration_counts(found: Seq<MonitorQuery>)
    ensures
        displays_of(found).len() == answered(found),
        primaries(displays_of(found)) == answered_primary(found),
        all_answered(found) ==> displays_of(found).len() == found.len(),
    decreases found.len(),
{
    if found.len() > 0 {
        lemma_enumeration_counts(found.drop_last());
        if all_answered(found) {
            assert(found.last().info is Some);
            assert forall|i: int| 0 <= i < found.drop_last().len() implies (
            #[trigger] found.drop_last()[i]).info is Some by {
                assert(found.drop_last()[i] == found[i]);
            }
        }
        let rest = displays_of(found.drop_last());
        match found.last().info {
            Some(info) => {
                let ds = rest.push(display_of(info, found.last().handle));
                assert(ds.drop_last() =~= rest);
            },
            None => {},
        }
    }
}

impl DisplayKind {
    /// The kind of a display from the platform's main-display answer, which
    /// is 1 for the main display.
    pub fn from_main_flag(is_main: u32) -> (r: DisplayKind)
        ensures
            r == (if is_main == 1 {
                DisplayKind::Primary
            } else {
                DisplayKind::Standard
            }),
    {
        if is_main == 1 {
            DisplayKind::Primary
        } else {
            DisplayKind::Standard
        }
    }
}

impl Displays {
    /// The displays not yet handed out.
    pub closed spec fn view(&self) -> Seq<Display> {
        self.items@.skip(self.next as int)
    }

    pub closed spec fn wf(&self) -> bool {
        self.next <= self.items@.len()
    }

    pub fn new(items: Vec<Display>) -> (r: Displays)
        ensures
            r.wf(),
            r@ == items@,
    {
        let r = Displays { items, next: 0 };
        proof {
            assert(r.items@.skip(0) =~= r.items@);
        }
        r
    }

    /// The next display, or `None` once all were handed out.
    pub fn next(&mut self) -> (r: Option<Display>)
        requires
            old(self).wf(),
        ensures
            final(self).wf(),
            old(self)@.len() == 0 ==> r is None && final(self)@ == old(self)@,
            old(self)@.len() > 0 ==> r == Some(old(self)@[0]) && final(self)@ == old(self)@.drop_first(),
    {
        if self.next < self.items.len() {
            let d = self.items[self.next];
            self.next = self.next + 1;
            proof {
                assert(self.items@.skip(self.next as int) =~= old(self)@.drop_first());
            }
            Some(d)
        } else {
            None
        }
    }
}

fn extent_of(lo: i32, hi: i32) -> (r: u32)
    ensures
        r == extent(lo, hi),
{
    let d: i64 = hi as i64 - lo as i64;
    if d >= 0 {
        d as u32
    } else {
        (d + 0x1_0000_0000i64) as u32
    }
}

impl Display {
    /// The display described by a monitor's information: its offset is the
    /// rectangle's top-left corner, its size the rectangle's extent, and it is
    /// primary exactly when the flags say so.
    pub fn new(info: MonitorInfo, handle: u64) -> (r: Display)
        ensures
            r == display_of(info, handle),
    {
        Display {
            handle,
            x: info.left,
            y: info.top,
            width: extent_of(info.left, info.right),
            height: extent_of(info.top, info.bottom),
            kind: if info.flags == MONITOR_PRIMARY_FLAG {
                DisplayKind::Primary
            } else {
                DisplayKind::Standard
            },
        }
    }

    pub fn handle(&self) -> (r: u64)
        ensures
            r == self.handle,
    {
        self.handle
    }

    pub fn x(&self) -> (r: i32)
        ensures
            r == self.x,
    {
        self.x
    }

    pub fn y(&self) -> (r: i32)
        ensures
            r == self.y,
    {
        self.y
    }

    pub fn width(&self) -> (r: u32)
        ensures
            r == self.width,
    {
        self.width
    }

    pub fn height(&self) -> (r: u32)
        ensures
            r == self.height,
    {
        self.height
    }

    pub fn kind(&self) -> (r: DisplayKind)
        ensures
            r == self.kind,
    {
        self.kind
    }
}

/// The primary display, from the platform's answer for the monitor that holds
/// the origin: `info` is `None` when the query failed, and `os_error` is then
/// the platform's error code.
pub fn get_primary(handle: u64, info: Option<MonitorInfo>, os_error: i32) -> (r: Result<
    Display,
    EnumerationError,
>)
    ensures
        match info {
            Some(i) => r == Ok::<Display, EnumerationError>(display_of(i, handle)),
            None => r == Err::<Display, EnumerationError>(EnumerationError { code: os_error }),
        },
{
    match info {
        Some(i) => Ok(Display::new(i, handle)),
        None => Err(EnumerationError { code: os_error }),
    }
}

/// All displays, from what the platform's enumeration met: when the
/// enumeration itself failed (`listed` is false) its error code is returned;
/// when the query of a monitor failed, the error of the first such query;
/// otherwise one display per monitor, in the order met. An empty list is a
/// valid result.
pub fn get_displays(listed: bool, os_error: i32, found: &Vec<MonitorQuery>) -> (r: Result<
    Vec<Display>,
    EnumerationError,
>)
    ensures
        !listed ==> r == Err::<Vec<Display>, EnumerationError>(
            EnumerationError { code: os_error },
        ),
        listed ==> (r is Ok <==> all_answered(found@)),
        r is Ok ==> r->Ok_0@ == displays_of(found@),
        listed && r is Err ==> first_failure(found@, r->Err_0.code),
{
    if !listed {
        return Err(EnumerationError { code: os_error });
    }
    let mut out: Vec<Display> = Vec::new();
    let mut i: usize = 0;
    while i < found.len()
        invariant
            listed,
            i <= found@.len(),
            out@ == displays_of(found@.take(i as int)),
            forall|j: int| 0 <= j < i ==> (#[trigger] found@[j]).info is Some,
        decreases found@.len() - i,
    {
        let q = found[i];
        proof {
            assert(found@.take(i as int + 1).drop_last() == found@.take(i as int));
        }
        match q.info {
            Some(info) => out.push(Display::new(info, q.handle)),
            None => {
                proof {
                    assert(found@[i as int].info is None);
                }
                return Err(EnumerationError { code: q.os_error });
            },
        }
        i = i + 1;
    }
    proof {
        assert(found@.take(found@.len() as int) == found@);
    }
    Ok(out)
}

} // verus!

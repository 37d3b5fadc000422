//! Choosing what to capture: a monitor by id, the primary monitor, a window
//! by id, or the monitor under the pointer.

use vstd::prelude::*;
use crate::display::{MonitorProbe, MonitorProbeView, WindowProbe, WindowProbeView, or_default, views};
use crate::error::{CaptureError, CaptureErrorView, MissingTarget};

verus! {

/// The index of the first `true` at or after `start`, if there is one.
pub open spec fn first_true_from(flags: Seq<bool>, start: int) -> Option<int>
    decreases flags.len() - start,
{
    if start < 0 || start >= flags.len() {
        None
    } else if flags[start] {
        Some(start)
    } else {
        first_true_from(flags, start + 1)
    }
}

/// The index of the first `true`, if there is one.
pub open spec fn first_true(flags: Seq<bool>) -> Option<int> {
    first_true_from(flags, 0)
}

/// `first_true` names the least index that holds `true`, and is `None`
/// exactly where no index does.
pub proof fn lemma_first_true(flags: Seq<bool>)
    ensures
        match first_true(flags) {
            Some(i) => 0 <= i < flags.len() && flags[i] && forall|j: int| 0 <= j < i ==> !flags[j],
            None => forall|j: int| 0 <= j < flags.len() ==> !flags[j],
        },
{
    lemma_first_true_from(flags, 0);
}

/// `first_true_from` names the least index from `start` on that holds
/// `true`.
proof fn lemma_first_true_from(flags: Seq<bool>, start: int)
    requires
        0 <= start,
    ensures
        match first_true_from(flags, start) {
            Some(i) => start <= i < flags.len() && flags[i] && forall|j: int|
                start <= j < i ==> !flags[j],
            None => forall|j: int| start <= j < flags.len() ==> !flags[j],
        },
    decreases flags.len() - start,
{
    if start < flags.len() && !flags[start] {
        lemma_first_true_from(flags, start + 1);
    }
}

/// A search may skip a front that holds no `true`.
proof fn lemma_first_true_skips(flags: Seq<bool>, upto: int)
    requires
        0 <= upto <= flags.len(),
        forall|j: int| 0 <= j < upto ==> !flags[j],
    ensures
        first_true(flags) == first_true_from(flags, upto),
    decreases upto,
{
    if upto > 0 {
        lemma_first_true_skips(flags, upto - 1);
    }
}

/// Whether a monitor answers to `id`. A monitor whose id could not be read
/// answers to 0.
pub open spec fn monitor_has_id(probe: MonitorProbeView, id: u32) -> bool {
    or_default(probe.id, 0) == id
}

/// Whether a monitor reports itself as the primary one.
pub open spec fn monitor_is_primary(probe: MonitorProbeView) -> bool {
    or_default(probe.is_primary, false)
}

/// Whether a window answers to `id`. A window whose id could not be read
/// answers to 0.
pub open spec fn window_has_id(probe: WindowProbeView, id: u32) -> bool {
    or_default(probe.id, 0) == id
}

/// Whether the point lies in the monitor's rectangle, which reaches from
/// `(x, y)` to `(x + width, y + height)` and is half-open: the left and
/// upper edges belong to it, the right and lower edges do not.
pub open spec fn monitor_contains(probe: MonitorProbeView, x: int, y: int) -> bool {
    let left = or_default(probe.x, 0) as int;
    let top = or_default(probe.y, 0) as int;
    &&& left <= x < left + or_default(probe.width, 0)
    &&& top <= y < top + or_default(probe.height, 0)
}

/// The first monitor that answers to `id`.
pub open spec fn monitor_by_id(probes: Seq<MonitorProbeView>, id: u32) -> Option<int> {
    first_true(Seq::new(probes.len(), |i: int| monitor_has_id(probes[i], id)))
}

/// The first monitor that reports itself as primary.
pub open spec fn primary_monitor(probes: Seq<MonitorProbeView>) -> Option<int> {
    first_true(Seq::new(probes.len(), |i: int| monitor_is_primary(probes[i])))
}

/// The first window that answers to `id`.
pub open spec fn window_by_id(probes: Seq<WindowProbeView>, id: u32) -> Option<int> {
    first_true(Seq::new(probes.len(), |i: int| window_has_id(probes[i], id)))
}

/// The first monitor whose rectangle holds the point.
pub open spec fn monitor_at(probes: Seq<MonitorProbeView>, x: int, y: int) -> Option<int> {
    first_true(Seq::new(probes.len(), |i: int| monitor_contains(probes[i], x, y)))
}

/// The monitor of a one-shot screen capture: the one with the requested id;
/// without a request the primary one, or else the first.
pub open spec fn screen_target_of(probes: Seq<MonitorProbeView>, wanted: Option<u32>) -> Result<
    int,
    MissingTarget,
> {
    match wanted {
        Some(id) => match monitor_by_id(probes, id) {
            Some(i) => Ok(i),
            None => Err(MissingTarget::Monitor),
        },
        None => match primary_monitor(probes) {
            Some(i) => Ok(i),
            None => if probes.len() > 0 {
                Ok(0)
            } else {
                Err(MissingTarget::AnyMonitor)
            },
        },
    }
}

/// The monitor of a stream, chosen as for a one-shot screen capture: the one
/// with the requested id; without a request the primary one, or else the
/// first.
pub open spec fn stream_target_of(probes: Seq<MonitorProbeView>, wanted: Option<u32>) -> Option<
    int,
> {
    match screen_target_of(probes, wanted) {
        Ok(i) => Some(i),
        Err(_) => None,
    }
}

/// The monitor under the pointer, where the pointer could be read.
pub open spec fn cursor_target_of(
    position: Option<(i32, i32)>,
    probes: Seq<MonitorProbeView>,
) -> Option<int> {
    match position {
        Some((x, y)) => monitor_at(probes, x as int, y as int),
        None => None,
    }
}

/// The edges of a monitor's rectangle: the right and lower edges lie outside
/// it, and the upper-left corner lies inside unless the monitor has no area.
pub proof fn lemma_rectangle_half_open(probe: MonitorProbeView, x: int, y: int)
    ensures
        !monitor_contains(probe, or_default(probe.x, 0) + or_default(probe.width, 0), y),
        !monitor_contains(probe, x, or_default(probe.y, 0) + or_default(probe.height, 0)),
        or_default(probe.width, 0) > 0 && or_default(probe.height, 0) > 0 ==> monitor_contains(
            probe,
            or_default(probe.x, 0) as int,
            or_default(probe.y, 0) as int,
        ),
{
}

fn find_monitor_by_id(probes: &Vec<MonitorProbe>, id: u32) -> (res: Option<usize>)
    ensures
        res matches Some(i) ==> monitor_by_id(views(probes@), id) == Some(i as int) && i
            < probes.len(),
        res is None ==> monitor_by_id(views(probes@), id) is None,
{
    let ghost flags = Seq::new(probes.len() as nat, |i: int| monitor_has_id(views(probes@)[i], id));
    let mut i: usize = 0;
    while i < probes.len()
        invariant
            i <= probes.len(),
            flags == Seq::new(probes.len() as nat, |i: int| monitor_has_id(views(probes@)[i], id)),
            forall|j: int| 0 <= j < i ==> !flags[j],
        decreases probes.len() - i,
    {
        let found = match probes[i].id {
            Some(own) => own == id,
            None => id == 0,
        };
        if found {
            proof {
                lemma_first_true_skips(flags, i as int);
            }
            return Some(i);
        }
        i += 1;
    }
    proof {
        lemma_first_true_skips(flags, i as int);
    }
    None
}

fn find_primary_monitor(probes: &Vec<MonitorProbe>) -> (res: Option<usize>)
    ensures
        res matches Some(i) ==> primary_monitor(views(probes@)) == Some(i as int) && i
            < probes.len(),
        res is None ==> primary_monitor(views(probes@)) is None,
{
    let ghost flags = Seq::new(probes.len() as nat, |i: int| monitor_is_primary(views(probes@)[i]));
    let mut i: usize = 0;
    while i < probes.len()
        invariant
            i <= probes.len(),
            flags == Seq::new(probes.len() as nat, |i: int| monitor_is_primary(views(probes@)[i])),
            forall|j: int| 0 <= j < i ==> !flags[j],
        decreases probes.len() - i,
    {
        let found = match probes[i].is_primary {
            Some(primary) => primary,
            None => false,
        };
        if found {
            proof {
                lemma_first_true_skips(flags, i as int);
            }
            return Some(i);
        }
        i += 1;
    }
    proof {
        lemma_first_true_skips(flags, i as int);
    }
    None
}

fn find_window_by_id(probes: &Vec<WindowProbe>, id: u32) -> (res: Option<usize>)
    ensures
        res matches Some(i) ==> window_by_id(views(probes@), id) == Some(i as int) && i
            < probes.len(),
        res is None ==> window_by_id(views(probes@), id) is None,
{
    let ghost flags = Seq::new(probes.len() as nat, |i: int| window_has_id(views(probes@)[i], id));
    let mut i: usize = 0;
    while i < probes.len()
        invariant
            i <= probes.len(),
            flags == Seq::new(probes.len() as nat, |i: int| window_has_id(views(probes@)[i], id)),
            forall|j: int| 0 <= j < i ==> !flags[j],
        decreases probes.len() - i,
    {
        let found = match probes[i].id {
            Some(own) => own == id,
            None => id == 0,
        };
        if found {
            proof {
                lemma_first_true_skips(flags, i as int);
            }
            return Some(i);
        }
        i += 1;
    }
    proof {
        lemma_first_true_skips(flags, i as int);
    }
    None
}

fn find_monitor_at(probes: &Vec<MonitorProbe>, x: i32, y: i32) -> (res: Option<usize>)
    ensures
        res matches Some(i) ==> monitor_at(views(probes@), x as int, y as int) == Some(i as int)
            && i < probes.len(),
        res is None ==> monitor_at(views(probes@), x as int, y as int) is None,
{
    let ghost flags = Seq::new(
        probes.len() as nat,
        |i: int| monitor_contains(views(probes@)[i], x as int, y as int),
    );
    let mut i: usize = 0;
    while i < probes.len()
        invariant
            i <= probes.len(),
            flags == Seq::new(
                probes.len() as nat,
                |i: int| monitor_contains(views(probes@)[i], x as int, y as int),
            ),
            forall|j: int| 0 <= j < i ==> !flags[j],
        decreases probes.len() - i,
    {
        let probe = &probes[i];
        let left: i64 = match probe.x {
            Some(v) => v as i64,
            None => 0,
        };
        let top: i64 = match probe.y {
            Some(v) => v as i64,
            None => 0,
        };
        let width: i64 = match probe.width {
            Some(v) => v as i64,
            None => 0,
        };
        let height: i64 = match probe.height {
            Some(v) => v as i64,
            None => 0,
        };
        let px: i64 = x as i64;
        let py: i64 = y as i64;
        if left <= px && px < left + width && top <= py && py < top + height {
            proof {
                lemma_first_true_skips(flags, i as int);
            }
            return Some(i);
        }
        i += 1;
    }
    proof {
        lemma_first_true_skips(flags, i as int);
    }
    None
}

/// Picks the monitor of a one-shot screen capture from an enumeration
/// snapshot.
///
/// With `monitor_id` the first monitor that answers to it is taken, and its
/// absence is an error. Without, the first primary monitor is taken, or else
/// the first monitor of the snapshot; only an empty snapshot is an error.
/// A failed enumeration is handed on with its cause.
pub fn screen_target(snapshot: &Result<Vec<MonitorProbe>, String>, monitor_id: Option<u32>) -> (res:
    Result<usize, CaptureError>)
    ensures
        match res {
            Ok(i) => *snapshot matches Ok(probes) && i < probes.len() && screen_target_of(
                views(probes@),
                monitor_id,
            ) == Ok::<int, MissingTarget>(i as int),
            Err(e) => match *snapshot {
                Ok(probes) => screen_target_of(views(probes@), monitor_id) matches Err(missing)
                    && e@ == CaptureErrorView::TargetNotFound(missing),
                Err(cause) => e@ == CaptureErrorView::Enumeration(cause@),
            },
        },
{
    match snapshot {
        Err(cause) => Err(CaptureError::Enumeration(cause.clone())),
        Ok(probes) => match stream_target(probes, monitor_id) {
            Ok(i) => Ok(i),
            Err(missing) => Err(CaptureError::TargetNotFound(missing)),
        },
    }
}

/// Picks the monitor of a stream from the monitors of a snapshot, as a
/// one-shot screen capture picks its own: the first that answers to
/// `monitor_id`; without a request the first primary one, or else the first
/// of the snapshot.
///
/// Where there is none, the error says what was missed: the requested
/// monitor, or any monitor at all.
pub fn stream_target(probes: &Vec<MonitorProbe>, monitor_id: Option<u32>) -> (res: Result<
    usize,
    MissingTarget,
>)
    ensures
        match res {
            Ok(i) => i < probes.len() && stream_target_of(views(probes@), monitor_id) == Some(
                i as int,
            ),
            Err(missing) => stream_target_of(views(probes@), monitor_id) is None
                && screen_target_of(views(probes@), monitor_id) == Err::<int, MissingTarget>(
                missing,
            ),
        },
{
    match monitor_id {
        Some(id) => match find_monitor_by_id(probes, id) {
            Some(i) => Ok(i),
            None => Err(MissingTarget::Monitor),
        },
        None => match find_primary_monitor(probes) {
            Some(i) => Ok(i),
            None => if probes.len() > 0 {
                Ok(0)
            } else {
                Err(MissingTarget::AnyMonitor)
            },
        },
    }
}

/// Picks the window of a one-shot window capture from an enumeration
/// snapshot: the first window that answers to `id`.
///
/// A failed enumeration is handed on with its cause.
pub fn window_target(snapshot: &Result<Vec<WindowProbe>, String>, id: u32) -> (res: Result<
    usize,
    CaptureError,
>)
    ensures
        match res {
            Ok(i) => *snapshot matches Ok(probes) && i < probes.len() && window_by_id(
                views(probes@),
                id,
            ) == Some(i as int),
            Err(e) => match *snapshot {
                Ok(probes) => window_by_id(views(probes@), id) is None && e@
                    == CaptureErrorView::TargetNotFound(MissingTarget::Window),
                Err(cause) => e@ == CaptureErrorView::Enumeration(cause@),
            },
        },
{
    match snapshot {
        Err(cause) => Err(CaptureError::Enumeration(cause.clone())),
        Ok(probes) => match find_window_by_id(probes, id) {
            Some(i) => Ok(i),
            None => Err(CaptureError::TargetNotFound(MissingTarget::Window)),
        },
    }
}

/// Finds the monitor under the pointer.
///
/// `position` is the pointer position, or `None` where it could not be read;
/// `snapshot` is the outcome of enumerating the monitors. The result is the
/// first monitor whose half-open rectangle holds the pointer, and `None` where
/// there is none, the pointer is unknown or the enumeration failed.
pub fn get_monitor_at_cursor(
    position: Option<(i32, i32)>,
    snapshot: &Result<Vec<MonitorProbe>, String>,
) -> (res: Option<usize>)
    ensures
        match res {
            Some(i) => *snapshot matches Ok(probes) && i < probes.len() && cursor_target_of(
                position,
                views(probes@),
            ) == Some(i as int),
            None => *snapshot matches Ok(probes) ==> cursor_target_of(position, views(probes@))
                is None,
        },
{
    match (position, snapshot) {
        (Some((x, y)), Ok(probes)) => find_monitor_at(probes, x, y),
        _ => None,
    }
}

} // verus!

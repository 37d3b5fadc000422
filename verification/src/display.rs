//! Listing monitors and windows from an enumeration snapshot.

use vstd::prelude::*;
use crate::error::{CaptureError, CaptureErrorView};

verus! {

/// Windows narrower or lower than this many pixels are not listed.
pub const MIN_WINDOW_SIDE: u32 = 50;

/// What one enumeration pass could read of a monitor.
///
/// A field is `None` where the platform failed to report that attribute.
#[derive(Clone, Debug, PartialEq, Eq)]
pub struct MonitorProbe {
    pub id: Option<u32>,
    pub name: Option<String>,
    pub x: Option<i32>,
    pub y: Option<i32>,
    pub width: Option<u32>,
    pub height: Option<u32>,
    pub is_primary: Option<bool>,
}

/// What one enumeration pass could read of a window.
///
/// A field is `None` where the platform failed to report that attribute.
#[derive(Clone, Debug, PartialEq, Eq)]
pub struct WindowProbe {
    pub id: Option<u32>,
    pub title: Option<String>,
    pub app_name: Option<String>,
    pub width: Option<u32>,
    pub height: Option<u32>,
}

/// A monitor as listed for the user interface.
#[derive(Clone, Debug, PartialEq, Eq)]
pub struct MonitorInfo {
    pub id: u32,
    pub name: String,
    pub width: u32,
    pub height: u32,
    pub is_primary: bool,
}

/// A window as listed for the user interface.
#[derive(Clone, Debug, PartialEq, Eq)]
pub struct WindowInfo {
    pub id: u32,
    pub title: String,
    pub app_name: String,
    pub width: u32,
    pub height: u32,
}

/// [`MonitorProbe`] as contracts see it: every text as its characters.
pub struct MonitorProbeView {
    pub id: Option<u32>,
    pub name: Option<Seq<char>>,
    pub x: Option<i32>,
    pub y: Option<i32>,
    pub width: Option<u32>,
    pub height: Option<u32>,
    pub is_primary: Option<bool>,
}

/// [`WindowProbe`] as contracts see it: every text as its characters.
pub struct WindowProbeView {
    pub id: Option<u32>,
    pub title: Option<Seq<char>>,
    pub app_name: Option<Seq<char>>,
    pub width: Option<u32>,
    pub height: Option<u32>,
}

/// [`MonitorInfo`] as contracts see it: every text as its characters.
pub struct MonitorInfoView {
    pub id: u32,
    pub name: Seq<char>,
    pub width: u32,
    pub height: u32,
    pub is_primary: bool,
}

/// [`WindowInfo`] as contracts see it: every text as its characters.
pub struct WindowInfoView {
    pub id: u32,
    pub title: Seq<char>,
    pub app_name: Seq<char>,
    pub width: u32,
    pub height: u32,
}

/// The text of an attribute that may be missing.
pub open spec fn text_view(text: Option<String>) -> Option<Seq<char>> {
    match text {
        Some(s) => Some(s@),
        None => None,
    }
}

impl View for MonitorProbe {
    type V = MonitorProbeView;

    open spec fn view(&self) -> MonitorProbeView {
        MonitorProbeView {
            id: self.id,
            name: text_view(self.name),
            x: self.x,
            y: self.y,
            width: self.width,
            height: self.height,
            is_primary: self.is_primary,
        }
    }
}

impl View for WindowProbe {
    type V = WindowProbeView;

    open spec fn view(&self) -> WindowProbeView {
        WindowProbeView {
            id: self.id,
            title: text_view(self.title),
            app_name: text_view(self.app_name),
            width: self.width,
            height: self.height,
        }
    }
}

impl View for MonitorInfo {
    type V = MonitorInfoView;

    open spec fn view(&self) -> MonitorInfoView {
        MonitorInfoView {
            id: self.id,
            name: self.name@,
            width: self.width,
            height: self.height,
            is_primary: self.is_primary,
        }
    }
}

impl View for WindowInfo {
    type V = WindowInfoView;

    open spec fn view(&self) -> WindowInfoView {
        WindowInfoView {
            id: self.id,
            title: self.title@,
            app_name: self.app_name@,
            width: self.width,
            height: self.height,
        }
    }
}

/// The views of the items of a sequence, in order.
pub open spec fn views<T: View>(items: Seq<T>) -> Seq<T::V> {
    Seq::new(items.len(), |i: int| items[i]@)
}

/// The attribute, or `fallback` where it could not be read.
pub open spec fn or_default<T>(attribute: Option<T>, fallback: T) -> T {
    match attribute {
        Some(value) => value,
        None => fallback,
    }
}

/// The listing of one monitor: every attribute that could not be read
/// degrades to zero, the empty string or `false`.
pub open spec fn monitor_info_of(probe: MonitorProbeView) -> MonitorInfoView {
    MonitorInfoView {
        id: or_default(probe.id, 0),
        name: or_default(probe.name, Seq::empty()),
        width: or_default(probe.width, 0),
        height: or_default(probe.height, 0),
        is_primary: or_default(probe.is_primary, false),
    }
}

/// The listing of a snapshot of monitors: one entry per monitor, in order.
pub open spec fn monitor_infos(probes: Seq<MonitorProbeView>) -> Seq<MonitorInfoView> {
    Seq::new(probes.len(), |i: int| monitor_info_of(probes[i]))
}

/// Whether a window is listed: its id could be read and neither side is
/// under [`MIN_WINDOW_SIDE`].
pub open spec fn window_listed(probe: WindowProbeView) -> bool {
    &&& probe.id is Some
    &&& or_default(probe.width, 0) >= MIN_WINDOW_SIDE
    &&& or_default(probe.height, 0) >= MIN_WINDOW_SIDE
}

/// The listing of one window that is listed.
pub open spec fn window_info_of(probe: WindowProbeView) -> WindowInfoView {
    WindowInfoView {
        id: or_default(probe.id, 0),
        title: or_default(probe.title, Seq::empty()),
        app_name: or_default(probe.app_name, Seq::empty()),
        width: or_default(probe.width, 0),
        height: or_default(probe.height, 0),
    }
}

/// The listing of a snapshot of windows: the listed ones, in enumeration
/// order.
pub open spec fn window_infos(probes: Seq<WindowProbeView>) -> Seq<WindowInfoView>
    decreases probes.len(),
{
    if probes.len() == 0 {
        Seq::empty()
    } else if window_listed(probes.last()) {
        window_infos(probes.drop_last()).push(window_info_of(probes.last()))
    } else {
        window_infos(probes.drop_last())
    }
}

pub(crate) fn text_or_empty(text: &Option<String>) -> (res: String)
    ensures
        res@ == or_default(text_view(*text), Seq::empty()),
{
    match text {
        Some(s) => s.clone(),
        None => String::new(),
    }
}

fn number_or_zero(number: Option<u32>) -> (res: u32)
    ensures
        res == or_default(number, 0),
{
    match number {
        Some(n) => n,
        None => 0,
    }
}

/// Lists the monitors of an enumeration snapshot.
///
/// `snapshot` is the outcome of the enumeration call: the monitors it found,
/// or the cause of its failure. Only a failed enumeration fails the listing;
/// an attribute that could not be read degrades to its default.
pub fn get_monitors(snapshot: Result<Vec<MonitorProbe>, String>) -> (res: Result<
    Vec<MonitorInfo>,
    CaptureError,
>)
    ensures
        match snapshot {
            Ok(probes) => res matches Ok(infos) && views(infos@) == monitor_infos(views(probes@)),
            Err(cause) => res matches Err(e) && e@ == CaptureErrorView::Enumeration(cause@),
        },
{
    match snapshot {
        Err(cause) => Err(CaptureError::Enumeration(cause)),
        Ok(probes) => {
            let mut infos: Vec<MonitorInfo> = Vec::new();
            let mut i: usize = 0;
            while i < probes.len()
                invariant
                    i <= probes.len(),
                    infos.len() == i,
                    forall|k: int| 0 <= k < i ==> (#[trigger] infos[k])@ == monitor_info_of(probes[k]@),
                decreases probes.len() - i,
            {
                let probe = &probes[i];
                let info = MonitorInfo {
                    id: number_or_zero(probe.id),
                    name: text_or_empty(&probe.name),
                    width: number_or_zero(probe.width),
                    height: number_or_zero(probe.height),
                    is_primary: match probe.is_primary {
                        Some(primary) => primary,
                        None => false,
                    },
                };
                infos.push(info);
                i += 1;
            }
            assert(views(infos@) =~= monitor_infos(views(probes@)));
            Ok(infos)
        },
    }
}

/// Lists the windows of an enumeration snapshot.
///
/// `snapshot` is the outcome of the enumeration call. A window whose id could
/// not be read is dropped, and so is one narrower or lower than
/// [`MIN_WINDOW_SIDE`]; the others keep their enumeration order.
pub fn get_windows(snapshot: Result<Vec<WindowProbe>, String>) -> (res: Result<
    Vec<WindowInfo>,
    CaptureError,
>)
    ensures
        match snapshot {
            Ok(probes) => res matches Ok(infos) && views(infos@) == window_infos(views(probes@)),
            Err(cause) => res matches Err(e) && e@ == CaptureErrorView::Enumeration(cause@),
        },
        res matches Ok(infos) ==> forall|k: int|
            0 <= k < infos.len() ==> (#[trigger] infos[k]).width >= MIN_WINDOW_SIDE && infos[k].height
                >= MIN_WINDOW_SIDE,
{
    match snapshot {
        Err(cause) => Err(CaptureError::Enumeration(cause)),
        Ok(probes) => {
            let mut infos: Vec<WindowInfo> = Vec::new();
            let mut i: usize = 0;
            while i < probes.len()
                invariant
                    i <= probes.len(),
                    views(infos@) == window_infos(views(probes@).take(i as int)),
                    forall|k: int|
                        0 <= k < infos.len() ==> (#[trigger] infos[k]).width >= MIN_WINDOW_SIDE
                            && infos[k].height >= MIN_WINDOW_SIDE,
                decreases probes.len() - i,
            {
                let probe = &probes[i];
                let width = number_or_zero(probe.width);
                let height = number_or_zero(probe.height);
                proof {
                    let seen = views(probes@).take(i as int + 1);
                    assert(seen.drop_last() =~= views(probes@).take(i as int));
                    assert(seen.last() == probe@);
                }
                if let Some(id) = probe.id {
                    if width >= MIN_WINDOW_SIDE && height >= MIN_WINDOW_SIDE {
                        let ghost before = views(infos@);
                        let info = WindowInfo {
                            id,
                            title: text_or_empty(&probe.title),
                            app_name: text_or_empty(&probe.app_name),
                            width,
                            height,
                        };
                        infos.push(info);
                        assert(views(infos@) =~= before.push(window_info_of(probe@)));
                    }
                }
                i += 1;
            }
            assert(views(probes@).take(probes.len() as int) =~= views(probes@));
            Ok(infos)
        },
    }
}

} // verus!

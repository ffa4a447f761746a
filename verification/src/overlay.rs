//! Overlay/window inspection: picking the hidden overlay windows out of an
//! enumeration of top-level windows.
//!
//! The probe hands in one record per window with its extended-style bits,
//! rectangle, owner and visibility; the detector keeps the layered windows
//! that are transparent or topmost, big enough to hide content behind, and
//! either visible or topmost.

use vstd::prelude::*;

verus! {

/// One top-level window as the probe observed it.
#[derive(Clone, Copy, Debug)]
pub struct WindowRecord {
    pub handle: usize,
    pub left: i32,
    pub top: i32,
    pub right: i32,
    pub bottom: i32,
    pub owner_pid: u32,
    pub is_layered: bool,
    pub is_transparent: bool,
    pub is_topmost: bool,
    pub is_visible: bool,
}

/// A window judged to be a hidden overlay.
#[derive(Clone, Copy, Debug)]
pub struct OverlayWindow {
    pub handle: usize,
    pub position: (i32, i32),
    pub size: (u32, u32),
    pub owner_pid: u32,
    pub is_transparent: bool,
    pub is_topmost: bool,
}

/// The overlay rule: layered, transparent or topmost, strictly larger than
/// 50 by 50 pixels, and either visible or topmost.
pub open spec fn spec_is_hidden_overlay(w: WindowRecord) -> bool {
    &&& w.is_layered
    &&& (w.is_transparent || w.is_topmost)
    &&& w.right - w.left > 50
    &&& w.bottom - w.top > 50
    &&& (w.is_visible || w.is_topmost)
}

/// The overlay record emitted for a window that passed the rule.
pub open spec fn spec_overlay_window(w: WindowRecord) -> OverlayWindow {
    OverlayWindow {
        handle: w.handle,
        position: (w.left, w.top),
        size: ((w.right - w.left) as u32, (w.bottom - w.top) as u32),
        owner_pid: w.owner_pid,
        is_transparent: w.is_transparent,
        is_topmost: w.is_topmost,
    }
}

/// The overlays found in a window enumeration, in enumeration order.
pub open spec fn spec_hidden_overlays(ws: Seq<WindowRecord>) -> Seq<OverlayWindow>
    decreases ws.len(),
{
    if ws.len() == 0 {
        Seq::<OverlayWindow>::empty()
    } else {
        let rest = spec_hidden_overlays(ws.drop_last());
        if spec_is_hidden_overlay(ws.last()) {
            rest.push(spec_overlay_window(ws.last()))
        } else {
            rest
        }
    }
}

/// Picks hidden overlay windows out of a window enumeration.
pub struct OverlayDetector;

impl OverlayDetector {
    pub fn new() -> (r: OverlayDetector)
        ensures
            true,
    {
        OverlayDetector
    }

    /// Keep the windows that pass the overlay rule, in enumeration order.
    pub fn find_hidden_overlays(&self, windows: &Vec<WindowRecord>) -> (r: Vec<OverlayWindow>)
        ensures
            r@ == spec_hidden_overlays(windows@),
    {
        let mut out: Vec<OverlayWindow> = Vec::new();
        let mut i: usize = 0;
        while i < windows.len()
            invariant
                i <= windows@.len(),
                out@ == spec_hidden_overlays(windows@.subrange(0, i as int)),
            decreases windows@.len() - i,
        {
            let w = windows[i];
            let width: i64 = w.right as i64 - w.left as i64;
            let height: i64 = w.bottom as i64 - w.top as i64;
            if w.is_layered && (w.is_transparent || w.is_topmost) && width > 50 && height > 50 && (
            w.is_visible || w.is_topmost) {
                out.push(
                    OverlayWindow {
                        handle: w.handle,
                        position: (w.left, w.top),
                        size: (width as u32, height as u32),
                        owner_pid: w.owner_pid,
                        is_transparent: w.is_transparent,
                        is_topmost: w.is_topmost,
                    },
                );
            }
            proof {
                let pre = windows@.subrange(0, i as int);
                let cur = windows@.subrange(0, i + 1);
                assert(cur.drop_last() =~= pre);
                assert(cur.last() == windows@[i as int]);
            }
            i += 1;
        }
        proof {
            assert(windows@.subrange(0, windows@.len() as int) =~= windows@);
        }
        out
    }
}

} // verus!

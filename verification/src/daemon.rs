//! The decisions of the background daemon: which action a hotkey press or
//! a tray menu entry asks for, carrying an action out, and the tray icon.

use vstd::prelude::*;

use crate::config::Config;
use crate::error::Result;
use crate::monitor::{monitor_chosen, probe_order, read_reply, MonitorClient};
use crate::settings::{decoded_value, Setting};
use crate::text::chars_eq_str;
use crate::text::chars_of;
use crate::transport::HidTransport;

verus! {

/// Something the daemon can be asked to do.
#[derive(Debug, Clone, Copy, PartialEq, Eq, Structural)]
pub enum Action {
    Swap,
    PipToggle,
    Probe,
    OpenConfig,
    Quit,
}

/// The action of the tray menu entry with id `id`.
pub open spec fn tray_action_of(id: Seq<char>) -> Option<Action> {
    if id == "swap"@ {
        Some(Action::Swap)
    } else if id == "pip_toggle"@ {
        Some(Action::PipToggle)
    } else if id == "probe"@ {
        Some(Action::Probe)
    } else if id == "open_config"@ {
        Some(Action::OpenConfig)
    } else if id == "quit"@ {
        Some(Action::Quit)
    } else {
        None
    }
}

/// The action of the tray menu entry with id `id`, if it has one.
pub fn tray_action(id: &str) -> (r: Option<Action>)
    ensures
        r == tray_action_of(id@),
{
    let cs = chars_of(id);
    if chars_eq_str(&cs, "swap") {
        Some(Action::Swap)
    } else if chars_eq_str(&cs, "pip_toggle") {
        Some(Action::PipToggle)
    } else if chars_eq_str(&cs, "probe") {
        Some(Action::Probe)
    } else if chars_eq_str(&cs, "open_config") {
        Some(Action::OpenConfig)
    } else if chars_eq_str(&cs, "quit") {
        Some(Action::Quit)
    } else {
        None
    }
}

/// The action of a hotkey event: a press of the swap hotkey swaps, a press
/// of the toggle hotkey toggles, anything else does nothing.
pub fn hotkey_action(pressed: bool, id: u32, swap_id: u32, pip_toggle_id: u32) -> (r: Option<
    Action,
>)
    ensures
        r == (if pressed && id == swap_id {
            Some(Action::Swap)
        } else if pressed && id == pip_toggle_id {
            Some(Action::PipToggle)
        } else {
            None
        }),
{
    if pressed && id == swap_id {
        Some(Action::Swap)
    } else if pressed && id == pip_toggle_id {
        Some(Action::PipToggle)
    } else {
        None
    }
}

/// Carries out `action` on the monitor that `config` chooses through
/// `transport`. A probe returns what it read; the other actions return no
/// readings, and opening the configuration or quitting touch no monitor.
pub fn execute<T: HidTransport>(transport: T, config: Config, action: Action) -> (res: Result<
    Vec<(Setting, String, String)>,
>)
    ensures
        (action == Action::OpenConfig || action == Action::Quit) ==> (res matches Ok(v) && v@.len()
            == 0),
        (action == Action::Swap || action == Action::PipToggle || action == Action::Probe) && res is Ok
            ==> monitor_chosen(config.monitor),
        res matches Ok(v) ==> if action == Action::Probe {
            v@.len() == probe_order().len() && forall|k: int|
                0 <= k < v@.len() ==> {
                    let (s, raw, decoded) = #[trigger] v@[k];
                    &&& s == probe_order()[k]
                    &&& read_reply(s.command_text(), raw@)
                    &&& decoded@ == decoded_value(s, raw@)
                }
        } else {
            v@.len() == 0
        },
{
    let client = MonitorClient::new(transport, config);
    match action {
        Action::Swap => {
            client.swap()?;
            Ok(Vec::new())
        },
        Action::PipToggle => {
            client.pip_toggle()?;
            Ok(Vec::new())
        },
        Action::Probe => client.probe_pip(),
        Action::OpenConfig | Action::Quit => Ok(Vec::new()),
    }
}

/// Width and height of the tray icon, in pixels.
pub const ICON_SIZE: usize = 16;

/// The colour of the icon's pixel at column `x` and row `y`: a dark
/// border, a teal inset picture near the top right, light elsewhere.
pub open spec fn icon_pixel(x: int, y: int) -> Seq<u8> {
    if x == 0 || y == 0 || x == 15 || y == 15 {
        seq![32u8, 38u8, 46u8, 255u8]
    } else if 9 <= x && x <= 13 && 3 <= y && y <= 7 {
        seq![20u8, 184u8, 166u8, 255u8]
    } else {
        seq![245u8, 247u8, 250u8, 255u8]
    }
}

/// The tray icon as 16 by 16 RGBA pixels, row by row.
pub fn tray_icon_rgba() -> (r: Vec<u8>)
    ensures
        r@.len() == 16 * 16 * 4,
        forall|y: int, x: int, c: int|
            0 <= y < 16 && 0 <= x < 16 && 0 <= c < 4 ==> #[trigger] r@[(y * 16 + x) * 4 + c]
                == icon_pixel(x, y)[c],
{
    let mut rgba: Vec<u8> = Vec::with_capacity(ICON_SIZE * ICON_SIZE * 4);
    let mut y: usize = 0;
    while y < 16
        invariant
            y <= 16,
            rgba@.len() == y * 64,
            forall|yy: int, x: int, c: int|
                0 <= yy < y && 0 <= x < 16 && 0 <= c < 4 ==> #[trigger] rgba@[(yy * 16 + x) * 4 + c]
                    == icon_pixel(x, yy)[c],
        decreases 16 - y,
    {
        let mut x: usize = 0;
        while x < 16
            invariant
                y < 16,
                x <= 16,
                rgba@.len() == y * 64 + x * 4,
                forall|yy: int, xx: int, c: int|
                    0 <= yy < y && 0 <= xx < 16 && 0 <= c < 4 ==> #[trigger] rgba@[(yy * 16 + xx) * 4
                        + c] == icon_pixel(xx, yy)[c],
                forall|xx: int, c: int|
                    0 <= xx < x && 0 <= c < 4 ==> #[trigger] rgba@[(y * 16 + xx) * 4 + c]
                        == icon_pixel(xx, y as int)[c],
            decreases 16 - x,
        {
            let is_border = x == 0 || y == 0 || x == 15 || y == 15;
            let is_pip = x >= 9 && x <= 13 && y >= 3 && y <= 7;
            let color: [u8; 4] = if is_border {
                [32, 38, 46, 255]
            } else if is_pip {
                [20, 184, 166, 255]
            } else {
                [245, 247, 250, 255]
            };
            assert(color@ =~= icon_pixel(x as int, y as int));
            let ghost before = rgba@;
            rgba.push(color[0]);
            rgba.push(color[1]);
            rgba.push(color[2]);
            rgba.push(color[3]);
            assert forall|yy: int, xx: int, c: int|
                0 <= yy < y && 0 <= xx < 16 && 0 <= c < 4 implies #[trigger] rgba@[(yy * 16 + xx) * 4
                + c] == icon_pixel(xx, yy)[c] by {
                assert(rgba@[(yy * 16 + xx) * 4 + c] == before[(yy * 16 + xx) * 4 + c]);
            }
            assert forall|xx: int, c: int|
                0 <= xx < x + 1 && 0 <= c < 4 implies #[trigger] rgba@[(y * 16 + xx) * 4 + c]
                == icon_pixel(xx, y as int)[c] by {
                if xx < x {
                    assert(rgba@[(y * 16 + xx) * 4 + c] == before[(y * 16 + xx) * 4 + c]);
                }
            }
            x = x + 1;
        }
        y = y + 1;
    }
    rgba
}

} // verus!

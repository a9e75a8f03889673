//! Configuration: window, graphics, debug and control settings with their
//! defaults, and the case-insensitive present-mode name lookup.
//!
//! Reading and parsing the configuration file is I/O and happens outside the
//! library; the values arrive here as plain strings and numbers. The clear
//! color is carried as the raw 32-bit patterns of its four components.

use vstd::prelude::*;
use vstd::string::StrSliceExecFns;
use crate::swapchain::PresentMode;

verus! {

/// Window settings.
pub struct WindowConfig {
    pub title: String,
    pub width: u32,
    pub height: u32,
    pub fullscreen: bool,
}

/// The documented window defaults.
pub open spec fn window_config_is_default(c: WindowConfig) -> bool {
    &&& c.title@ == "Vulkan Renderer"@
    &&& c.width == 1280
    &&& c.height == 720
    &&& !c.fullscreen
}

impl Default for WindowConfig {
    fn default() -> (c: Self)
        ensures
            window_config_is_default(c),
    {
        WindowConfig { title: "Vulkan Renderer".to_owned(), width: 1280, height: 720, fullscreen: false }
    }
}

/// Graphics settings. The clear color holds the raw bit patterns of its four
/// 32-bit components in red, green, blue, alpha order.
pub struct GraphicsConfig {
    pub present_mode: String,
    pub clear_color_bits: [u32; 4],
    pub max_frames_in_flight: usize,
}

/// The documented graphics defaults: immediate presentation, a blue-ish clear
/// color (the bit patterns of 0.1, 0.2, 0.8, 1.0), two frames in flight.
pub open spec fn graphics_config_is_default(c: GraphicsConfig) -> bool {
    &&& c.present_mode@ == "immediate"@
    &&& c.clear_color_bits@ == seq![0x3DCC_CCCDu32, 0x3E4C_CCCDu32, 0x3F4C_CCCDu32, 0x3F80_0000u32]
    &&& c.max_frames_in_flight == 2
}

impl Default for GraphicsConfig {
    fn default() -> (c: Self)
        ensures
            graphics_config_is_default(c),
    {
        let c = GraphicsConfig {
            present_mode: "immediate".to_owned(),
            clear_color_bits: [0x3DCC_CCCDu32, 0x3E4C_CCCDu32, 0x3F4C_CCCDu32, 0x3F80_0000u32],
            max_frames_in_flight: 2,
        };
        proof {
            assert(c.clear_color_bits@ =~= seq![
                0x3DCC_CCCDu32,
                0x3E4C_CCCDu32,
                0x3F4C_CCCDu32,
                0x3F80_0000u32,
            ]);
        }
        c
    }
}

/// Debug settings.
pub struct DebugConfig {
    pub validation_layers: bool,
    pub log_to_file: bool,
    pub log_file: String,
    pub show_fps: bool,
}

/// The documented debug defaults.
pub open spec fn debug_config_is_default(c: DebugConfig) -> bool {
    &&& c.validation_layers
    &&& c.log_to_file
    &&& c.log_file@ == "vulkan_debug.log"@
    &&& c.show_fps
}

impl Default for DebugConfig {
    fn default() -> (c: Self)
        ensures
            debug_config_is_default(c),
    {
        DebugConfig {
            validation_layers: true,
            log_to_file: true,
            log_file: "vulkan_debug.log".to_owned(),
            show_fps: true,
        }
    }
}

/// Control key bindings.
pub struct ControlsConfig {
    pub fullscreen_key: String,
    pub screenshot_key: String,
    pub quit_key: String,
}

/// The documented control-key defaults.
pub open spec fn controls_config_is_default(c: ControlsConfig) -> bool {
    &&& c.fullscreen_key@ == "F11"@
    &&& c.screenshot_key@ == "F12"@
    &&& c.quit_key@ == "Escape"@
}

impl Default for ControlsConfig {
    fn default() -> (c: Self)
        ensures
            controls_config_is_default(c),
    {
        ControlsConfig {
            fullscreen_key: "F11".to_owned(),
            screenshot_key: "F12".to_owned(),
            quit_key: "Escape".to_owned(),
        }
    }
}

/// Root configuration.
pub struct Config {
    pub window: WindowConfig,
    pub graphics: GraphicsConfig,
    pub debug: DebugConfig,
    pub controls: ControlsConfig,
}

impl Default for Config {
    fn default() -> (c: Self)
        ensures
            window_config_is_default(c.window),
            graphics_config_is_default(c.graphics),
            debug_config_is_default(c.debug),
            controls_config_is_default(c.controls),
    {
        Config {
            window: WindowConfig::default(),
            graphics: GraphicsConfig::default(),
            debug: DebugConfig::default(),
            controls: ControlsConfig::default(),
        }
    }
}

/// `a` matches `b` up to ASCII case, where `b` is a lowercase reference
/// character: either the characters are equal, or `b` is an ASCII lowercase
/// letter and `a` is its uppercase form.
pub open spec fn char_eq_lower(a: char, b: char) -> bool {
    a == b || (97 <= b as int <= 122 && a as int + 32 == b as int)
}

/// `s` matches the lowercase reference name `t` up to ASCII case.
pub open spec fn chars_eq_ignore_ascii_case(s: Seq<char>, t: Seq<char>) -> bool {
    s.len() == t.len() && forall|i: int| 0 <= i < s.len() ==> char_eq_lower(s[i], t[i])
}

/// Compare a string against a lowercase reference name, ignoring ASCII case.
pub fn str_eq_ignore_ascii_case(s: &str, t: &str) -> (r: bool)
    ensures
        r == chars_eq_ignore_ascii_case(s@, t@),
{
    let n = s.unicode_len();
    if n != t.unicode_len() {
        return false;
    }
    let mut i: usize = 0;
    while i < n
        invariant
            0 <= i <= n,
            n == s@.len(),
            n == t@.len(),
            forall|j: int| 0 <= j < i ==> char_eq_lower(s@[j], t@[j]),
        decreases n - i,
    {
        let a = s.get_char(i) as u32;
        let b = t.get_char(i) as u32;
        if !(a == b || (97 <= b && b <= 122 && a + 32 == b)) {
            return false;
        }
        i += 1;
    }
    true
}

/// The present mode a configured name denotes; an unrecognized name falls
/// back to the no-wait immediate mode.
pub open spec fn spec_parse_present_mode(s: Seq<char>) -> PresentMode {
    if chars_eq_ignore_ascii_case(s, "immediate"@) {
        PresentMode::Immediate
    } else if chars_eq_ignore_ascii_case(s, "mailbox"@) {
        PresentMode::Mailbox
    } else if chars_eq_ignore_ascii_case(s, "fifo"@) {
        PresentMode::Fifo
    } else if chars_eq_ignore_ascii_case(s, "fifo_relaxed"@) {
        PresentMode::FifoRelaxed
    } else {
        PresentMode::Immediate
    }
}

/// Whether a configured name is one of the four known present-mode names.
pub open spec fn spec_present_mode_recognized(s: Seq<char>) -> bool {
    ||| chars_eq_ignore_ascii_case(s, "immediate"@)
    ||| chars_eq_ignore_ascii_case(s, "mailbox"@)
    ||| chars_eq_ignore_ascii_case(s, "fifo"@)
    ||| chars_eq_ignore_ascii_case(s, "fifo_relaxed"@)
}

/// Look a present-mode name up, ignoring ASCII case. Returns the mode and
/// whether the name was recognized; an unrecognized name falls back to the
/// immediate mode, and the caller may warn about it.
pub fn parse_present_mode(name: &str) -> (r: (PresentMode, bool))
    ensures
        r.0 == spec_parse_present_mode(name@),
        r.1 == spec_present_mode_recognized(name@),
{
    if str_eq_ignore_ascii_case(name, "immediate") {
        (PresentMode::Immediate, true)
    } else if str_eq_ignore_ascii_case(name, "mailbox") {
        (PresentMode::Mailbox, true)
    } else if str_eq_ignore_ascii_case(name, "fifo") {
        (PresentMode::Fifo, true)
    } else if str_eq_ignore_ascii_case(name, "fifo_relaxed") {
        (PresentMode::FifoRelaxed, true)
    } else {
        (PresentMode::Immediate, false)
    }
}

impl Config {
    /// The configured present mode, by its name in the graphics settings.
    pub fn get_present_mode(&self) -> (r: PresentMode)
        ensures
            r == spec_parse_present_mode(self.graphics.present_mode@),
    {
        let (mode, _recognized) = parse_present_mode(self.graphics.present_mode.as_str());
        mode
    }
}

} // verus!

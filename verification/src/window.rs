//! Window configuration state and monitor records.
//!
//! A [`WindowState`] is the native bit mask of configuration flags behind
//! named accessors. Its view is the set of flags whose bit is set, so the
//! contracts of the accessors read as set operations; the mask itself is
//! pinned down next to it, because it is what the native library receives.

use vstd::prelude::*;
use vstd::utf8::{decode_utf8, valid_utf8};
use crate::consts::ConfigFlags;
use crate::text::{string_from_utf8, InvalidUtf8};

verus! {

/// Whether `bit` is the bit of one of the native configuration flags.
pub open spec fn is_flag_bit(bit: i32) -> bool {
    ||| bit == 0x0000_0002
    ||| bit == 0x0000_0004
    ||| bit == 0x0000_0008
    ||| bit == 0x0000_0010
    ||| bit == 0x0000_0020
    ||| bit == 0x0000_0040
    ||| bit == 0x0000_0080
    ||| bit == 0x0000_0100
    ||| bit == 0x0000_0200
    ||| bit == 0x0000_0400
    ||| bit == 0x0000_0800
    ||| bit == 0x0000_1000
    ||| bit == 0x0000_2000
    ||| bit == 0x0000_4000
    ||| bit == 0x0000_8000
    ||| bit == 0x0001_0000
}

/// The flags whose bit is set in the mask `bits`.
pub open spec fn flags_of(bits: i32) -> Set<ConfigFlags> {
    Set::new(|flag: ConfigFlags| bits & flag.mask() != 0)
}

/// The mask `bits` with the bit of `flag` set or cleared and every other bit
/// as it was.
pub open spec fn switched(bits: i32, flag: ConfigFlags, enabled: bool) -> i32 {
    if enabled {
        bits | flag.mask()
    } else {
        bits & !flag.mask()
    }
}

/// Whether the mask `bits` has no bit set besides those of the native flags.
pub open spec fn only_flag_bits(bits: i32) -> bool {
    bits & !0x0001_FFFEi32 == 0
}

/// The flags that [`get_window_state`] asks the window about.
pub open spec fn is_queried(flag: ConfigFlags) -> bool {
    flag != ConfigFlags::FLAG_WINDOW_MOUSE_PASSTHROUGH && flag
        != ConfigFlags::FLAG_BORDERLESS_WINDOWED_MODE
}

/// Whether `monitor` is the index of one of `count` connected monitors.
pub open spec fn monitor_index_valid(monitor: int, count: int) -> bool {
    0 <= monitor < count
}

proof fn lemma_flag_bits(word: i32, bit: i32, other: i32)
    by (bit_vector)
    requires
        is_flag_bit(bit),
        is_flag_bit(other),
    ensures
        ((word | bit) & other != 0) == (bit == other || word & other != 0),
        ((word & !bit) & other != 0) == (bit != other && word & other != 0),
{
}

proof fn lemma_flag_bits_twice(word: i32, first: i32, second: i32)
    by (bit_vector)
    requires
        is_flag_bit(first),
        is_flag_bit(second),
    ensures
        (word | first) | first == word | first,
        (word & !first) & !first == word & !first,
        (word | first) & !first == word & !first,
        (word & !first) | first == word | first,
        (word | first) | second == (word | second) | first,
        (word & !first) & !second == (word & !second) & !first,
        first != second ==> (word | first) & !second == (word & !second) | first,
{
}

proof fn lemma_flag_bits_stay_plain(word: i32, bit: i32)
    by (bit_vector)
    requires
        is_flag_bit(bit),
        word & !0x0001_FFFEi32 == 0,
    ensures
        (word | bit) & !0x0001_FFFEi32 == 0,
        (word & !bit) & !0x0001_FFFEi32 == 0,
{
}

proof fn lemma_plain_words_equal(a: i32, b: i32)
    by (bit_vector)
    requires
        a & !0x0001_FFFEi32 == 0,
        b & !0x0001_FFFEi32 == 0,
        (a & 0x0000_0002 != 0) == (b & 0x0000_0002 != 0),
        (a & 0x0000_0004 != 0) == (b & 0x0000_0004 != 0),
        (a & 0x0000_0008 != 0) == (b & 0x0000_0008 != 0),
        (a & 0x0000_0010 != 0) == (b & 0x0000_0010 != 0),
        (a & 0x0000_0020 != 0) == (b & 0x0000_0020 != 0),
        (a & 0x0000_0040 != 0) == (b & 0x0000_0040 != 0),
        (a & 0x0000_0080 != 0) == (b & 0x0000_0080 != 0),
        (a & 0x0000_0100 != 0) == (b & 0x0000_0100 != 0),
        (a & 0x0000_0200 != 0) == (b & 0x0000_0200 != 0),
        (a & 0x0000_0400 != 0) == (b & 0x0000_0400 != 0),
        (a & 0x0000_0800 != 0) == (b & 0x0000_0800 != 0),
        (a & 0x0000_1000 != 0) == (b & 0x0000_1000 != 0),
        (a & 0x0000_2000 != 0) == (b & 0x0000_2000 != 0),
        (a & 0x0000_4000 != 0) == (b & 0x0000_4000 != 0),
        (a & 0x0000_8000 != 0) == (b & 0x0000_8000 != 0),
        (a & 0x0001_0000 != 0) == (b & 0x0001_0000 != 0),
    ensures
        a == b,
{
}

proof fn lemma_zero_word(bit: i32)
    by (bit_vector)
    ensures
        0i32 & bit == 0,
        0i32 & !0x0001_FFFEi32 == 0,
{
}

/// Switching a flag adds it to, or takes it from, the flags of the mask and
/// touches no other flag.
pub proof fn lemma_switched_flags(bits: i32, flag: ConfigFlags, enabled: bool)
    ensures
        flags_of(switched(bits, flag, enabled)) == (if enabled {
            flags_of(bits).insert(flag)
        } else {
            flags_of(bits).remove(flag)
        }),
{
    let expected = if enabled {
        flags_of(bits).insert(flag)
    } else {
        flags_of(bits).remove(flag)
    };
    assert forall|other: ConfigFlags|
        flags_of(switched(bits, flag, enabled)).contains(other) == expected.contains(
            other,
        ) by {
        lemma_flag_bits(bits, flag.mask(), other.mask());
    }
    assert(flags_of(switched(bits, flag, enabled)) =~= expected);
}

/// Switching a flag twice is switching it once, to the value given last.
pub proof fn lemma_switched_last_wins(bits: i32, flag: ConfigFlags, first: bool, last: bool)
    ensures
        switched(switched(bits, flag, first), flag, last) == switched(bits, flag, last),
{
    lemma_flag_bits_twice(bits, flag.mask(), flag.mask());
}

/// Two different flags can be switched in either order.
pub proof fn lemma_switched_commutes(
    bits: i32,
    flag: ConfigFlags,
    enabled: bool,
    other: ConfigFlags,
    other_enabled: bool,
)
    requires
        flag != other,
    ensures
        switched(switched(bits, flag, enabled), other, other_enabled) == switched(
            switched(bits, other, other_enabled),
            flag,
            enabled,
        ),
{
    lemma_flag_bits_twice(bits, flag.mask(), other.mask());
    lemma_flag_bits_twice(bits, other.mask(), flag.mask());
}

/// Switching a flag brings no bit into the mask that belongs to no flag.
pub proof fn lemma_switched_only_flag_bits(bits: i32, flag: ConfigFlags, enabled: bool)
    requires
        only_flag_bits(bits),
    ensures
        only_flag_bits(switched(bits, flag, enabled)),
{
    lemma_flag_bits_stay_plain(bits, flag.mask());
}

proof fn lemma_same_flag(a: i32, b: i32, flag: ConfigFlags)
    requires
        flags_of(a) == flags_of(b),
    ensures
        (a & flag.mask() != 0) == (b & flag.mask() != 0),
{
    assert(flags_of(a).contains(flag) == (a & flag.mask() != 0));
    assert(flags_of(b).contains(flag) == (b & flag.mask() != 0));
}

/// A mask without stray bits is determined by its flags.
pub proof fn lemma_flags_determine_bits(a: i32, b: i32)
    requires
        only_flag_bits(a),
        only_flag_bits(b),
        flags_of(a) == flags_of(b),
    ensures
        a == b,
{
    lemma_same_flag(a, b, ConfigFlags::FLAG_VSYNC_HINT);
    lemma_same_flag(a, b, ConfigFlags::FLAG_FULLSCREEN_MODE);
    lemma_same_flag(a, b, ConfigFlags::FLAG_WINDOW_RESIZABLE);
    lemma_same_flag(a, b, ConfigFlags::FLAG_WINDOW_UNDECORATED);
    lemma_same_flag(a, b, ConfigFlags::FLAG_WINDOW_HIDDEN);
    lemma_same_flag(a, b, ConfigFlags::FLAG_WINDOW_MINIMIZED);
    lemma_same_flag(a, b, ConfigFlags::FLAG_WINDOW_MAXIMIZED);
    lemma_same_flag(a, b, ConfigFlags::FLAG_WINDOW_UNFOCUSED);
    lemma_same_flag(a, b, ConfigFlags::FLAG_WINDOW_TOPMOST);
    lemma_same_flag(a, b, ConfigFlags::FLAG_WINDOW_ALWAYS_RUN);
    lemma_same_flag(a, b, ConfigFlags::FLAG_WINDOW_TRANSPARENT);
    lemma_same_flag(a, b, ConfigFlags::FLAG_WINDOW_HIGHDPI);
    lemma_same_flag(a, b, ConfigFlags::FLAG_WINDOW_MOUSE_PASSTHROUGH);
    lemma_same_flag(a, b, ConfigFlags::FLAG_BORDERLESS_WINDOWED_MODE);
    lemma_same_flag(a, b, ConfigFlags::FLAG_MSAA_4X_HINT);
    lemma_same_flag(a, b, ConfigFlags::FLAG_INTERLACED_HINT);
    lemma_plain_words_equal(a, b);
}

/// A set of window configuration flags, kept as the native bit mask.
#[derive(Clone, Copy, Debug, PartialEq, Eq, Structural)]
pub struct WindowState(i32);

impl View for WindowState {
    type V = Set<ConfigFlags>;

    /// The flags whose bit is set.
    open spec fn view(&self) -> Set<ConfigFlags> {
        flags_of(self.spec_bits())
    }
}

impl Default for WindowState {
    /// The state in which no flag is set.
    fn default() -> (state: Self)
        ensures
            state.spec_bits() == 0,
            state@ == Set::<ConfigFlags>::empty(),
            state.only_flags(),
    {
        let state = WindowState(0);
        proof {
            lemma_zero_word(0);
            assert forall|flag: ConfigFlags| !state@.contains(flag) by {
                lemma_zero_word(flag.mask());
            }
            assert(state@ =~= Set::<ConfigFlags>::empty());
        }
        state
    }
}

impl WindowState {
    /// The bit mask that the state holds.
    pub closed spec fn spec_bits(self) -> i32 {
        self.0
    }

    /// Whether the state holds nothing but native flags.
    pub open spec fn only_flags(self) -> bool {
        only_flag_bits(self.spec_bits())
    }

    /// Two states that hold the same mask are the same state.
    pub proof fn lemma_bits_determine_state(self, other: Self)
        requires
            self.spec_bits() == other.spec_bits(),
        ensures
            self == other,
    {
    }

    /// The state that holds the mask `bits`, whatever its bits stand for.
    pub fn from_bits(bits: i32) -> (state: Self)
        ensures
            state.spec_bits() == bits,
    {
        WindowState(bits)
    }

    /// The mask as the native library takes it.
    #[verifier::when_used_as_spec(spec_bits)]
    pub fn bits(self) -> (bits: i32)
        ensures
            bits == self.spec_bits(),
    {
        self.0
    }

    fn has(&self, flag: ConfigFlags) -> (set: bool)
        ensures
            set == self@.contains(flag),
    {
        self.0 & flag.bits() != 0
    }

    fn with(self, flag: ConfigFlags, enabled: bool) -> (state: Self)
        ensures
            state.spec_bits() == switched(self.spec_bits(), flag, enabled),
            state@ == (if enabled {
                self@.insert(flag)
            } else {
                self@.remove(flag)
            }),
            self.only_flags() ==> state.only_flags(),
    {
        proof {
            lemma_switched_flags(self.0, flag, enabled);
            if self.only_flags() {
                lemma_switched_only_flag_bits(self.0, flag, enabled);
            }
        }
        if enabled {
            WindowState(self.0 | flag.bits())
        } else {
            WindowState(self.0 & !flag.bits())
        }
    }

    pub fn vsync_hint(&self) -> (set: bool)
        ensures
            set == self@.contains(ConfigFlags::FLAG_VSYNC_HINT),
    {
        self.has(ConfigFlags::FLAG_VSYNC_HINT)
    }

    /// Set to try enabling V-Sync on GPU
    pub fn set_vsync_hint(self, enabled: bool) -> (state: Self)
        ensures
            state.spec_bits() == switched(
                self.spec_bits(),
                ConfigFlags::FLAG_VSYNC_HINT,
                enabled,
            ),
            state@ == (if enabled {
                self@.insert(ConfigFlags::FLAG_VSYNC_HINT)
            } else {
                self@.remove(ConfigFlags::FLAG_VSYNC_HINT)
            }),
            self.only_flags() ==> state.only_flags(),
    {
        self.with(ConfigFlags::FLAG_VSYNC_HINT, enabled)
    }

    pub fn fullscreen_mode(&self) -> (set: bool)
        ensures
            set == self@.contains(ConfigFlags::FLAG_FULLSCREEN_MODE),
    {
        self.has(ConfigFlags::FLAG_FULLSCREEN_MODE)
    }

    /// Set to run program in fullscreen
    pub fn set_fullscreen_mode(self, enabled: bool) -> (state: Self)
        ensures
            state.spec_bits() == switched(
                self.spec_bits(),
                ConfigFlags::FLAG_FULLSCREEN_MODE,
                enabled,
            ),
            state@ == (if enabled {
                self@.insert(ConfigFlags::FLAG_FULLSCREEN_MODE)
            } else {
                self@.remove(ConfigFlags::FLAG_FULLSCREEN_MODE)
            }),
            self.only_flags() ==> state.only_flags(),
    {
        self.with(ConfigFlags::FLAG_FULLSCREEN_MODE, enabled)
    }

    pub fn window_resizable(&self) -> (set: bool)
        ensures
            set == self@.contains(ConfigFlags::FLAG_WINDOW_RESIZABLE),
    {
        self.has(ConfigFlags::FLAG_WINDOW_RESIZABLE)
    }

    /// Set to allow resizable window
    pub fn set_window_resizable(self, enabled: bool) -> (state: Self)
        ensures
            state.spec_bits() == switched(
                self.spec_bits(),
                ConfigFlags::FLAG_WINDOW_RESIZABLE,
                enabled,
            ),
            state@ == (if enabled {
                self@.insert(ConfigFlags::FLAG_WINDOW_RESIZABLE)
            } else {
                self@.remove(ConfigFlags::FLAG_WINDOW_RESIZABLE)
            }),
            self.only_flags() ==> state.only_flags(),
    {
        self.with(ConfigFlags::FLAG_WINDOW_RESIZABLE, enabled)
    }

    pub fn window_undecorated(&self) -> (set: bool)
        ensures
            set == self@.contains(ConfigFlags::FLAG_WINDOW_UNDECORATED),
    {
        self.has(ConfigFlags::FLAG_WINDOW_UNDECORATED)
    }

    /// Set to disable window decoration (frame and buttons)
    pub fn set_window_undecorated(self, enabled: bool) -> (state: Self)
        ensures
            state.spec_bits() == switched(
                self.spec_bits(),
                ConfigFlags::FLAG_WINDOW_UNDECORATED,
                enabled,
            ),
            state@ == (if enabled {
                self@.insert(ConfigFlags::FLAG_WINDOW_UNDECORATED)
            } else {
                self@.remove(ConfigFlags::FLAG_WINDOW_UNDECORATED)
            }),
            self.only_flags() ==> state.only_flags(),
    {
        self.with(ConfigFlags::FLAG_WINDOW_UNDECORATED, enabled)
    }

    pub fn window_hidden(&self) -> (set: bool)
        ensures
            set == self@.contains(ConfigFlags::FLAG_WINDOW_HIDDEN),
    {
        self.has(ConfigFlags::FLAG_WINDOW_HIDDEN)
    }

    /// Set to hide window
    pub fn set_window_hidden(self, enabled: bool) -> (state: Self)
        ensures
            state.spec_bits() == switched(
                self.spec_bits(),
                ConfigFlags::FLAG_WINDOW_HIDDEN,
                enabled,
            ),
            state@ == (if enabled {
                self@.insert(ConfigFlags::FLAG_WINDOW_HIDDEN)
            } else {
                self@.remove(ConfigFlags::FLAG_WINDOW_HIDDEN)
            }),
            self.only_flags() ==> state.only_flags(),
    {
        self.with(ConfigFlags::FLAG_WINDOW_HIDDEN, enabled)
    }

    pub fn window_minimized(&self) -> (set: bool)
        ensures
            set == self@.contains(ConfigFlags::FLAG_WINDOW_MINIMIZED),
    {
        self.has(ConfigFlags::FLAG_WINDOW_MINIMIZED)
    }

    /// Set to minimize window (iconify)
    pub fn set_window_minimized(self, enabled: bool) -> (state: Self)
        ensures
            state.spec_bits() == switched(
                self.spec_bits(),
                ConfigFlags::FLAG_WINDOW_MINIMIZED,
                enabled,
            ),
            state@ == (if enabled {
                self@.insert(ConfigFlags::FLAG_WINDOW_MINIMIZED)
            } else {
                self@.remove(ConfigFlags::FLAG_WINDOW_MINIMIZED)
            }),
            self.only_flags() ==> state.only_flags(),
    {
        self.with(ConfigFlags::FLAG_WINDOW_MINIMIZED, enabled)
    }

    pub fn window_maximized(&self) -> (set: bool)
        ensures
            set == self@.contains(ConfigFlags::FLAG_WINDOW_MAXIMIZED),
    {
        self.has(ConfigFlags::FLAG_WINDOW_MAXIMIZED)
    }

    /// Set to maximize window (expanded to monitor)
    pub fn set_window_maximized(self, enabled: bool) -> (state: Self)
        ensures
            state.spec_bits() == switched(
                self.spec_bits(),
                ConfigFlags::FLAG_WINDOW_MAXIMIZED,
                enabled,
            ),
            state@ == (if enabled {
                self@.insert(ConfigFlags::FLAG_WINDOW_MAXIMIZED)
            } else {
                self@.remove(ConfigFlags::FLAG_WINDOW_MAXIMIZED)
            }),
            self.only_flags() ==> state.only_flags(),
    {
        self.with(ConfigFlags::FLAG_WINDOW_MAXIMIZED, enabled)
    }

    pub fn window_unfocused(&self) -> (set: bool)
        ensures
            set == self@.contains(ConfigFlags::FLAG_WINDOW_UNFOCUSED),
    {
        self.has(ConfigFlags::FLAG_WINDOW_UNFOCUSED)
    }

    /// Set to window non focused
    pub fn set_window_unfocused(self, enabled: bool) -> (state: Self)
        ensures
            state.spec_bits() == switched(
                self.spec_bits(),
                ConfigFlags::FLAG_WINDOW_UNFOCUSED,
                enabled,
            ),
            state@ == (if enabled {
                self@.insert(ConfigFlags::FLAG_WINDOW_UNFOCUSED)
            } else {
                self@.remove(ConfigFlags::FLAG_WINDOW_UNFOCUSED)
            }),
            self.only_flags() ==> state.only_flags(),
    {
        self.with(ConfigFlags::FLAG_WINDOW_UNFOCUSED, enabled)
    }

    pub fn window_topmost(&self) -> (set: bool)
        ensures
            set == self@.contains(ConfigFlags::FLAG_WINDOW_TOPMOST),
    {
        self.has(ConfigFlags::FLAG_WINDOW_TOPMOST)
    }

    /// Set to window always on top
    pub fn set_window_topmost(self, enabled: bool) -> (state: Self)
        ensures
            state.spec_bits() == switched(
                self.spec_bits(),
                ConfigFlags::FLAG_WINDOW_TOPMOST,
                enabled,
            ),
            state@ == (if enabled {
                self@.insert(ConfigFlags::FLAG_WINDOW_TOPMOST)
            } else {
                self@.remove(ConfigFlags::FLAG_WINDOW_TOPMOST)
            }),
            self.only_flags() ==> state.only_flags(),
    {
        self.with(ConfigFlags::FLAG_WINDOW_TOPMOST, enabled)
    }

    pub fn window_always_run(&self) -> (set: bool)
        ensures
            set == self@.contains(ConfigFlags::FLAG_WINDOW_ALWAYS_RUN),
    {
        self.has(ConfigFlags::FLAG_WINDOW_ALWAYS_RUN)
    }

    /// Set to allow windows running while minimized
    pub fn set_window_always_run(self, enabled: bool) -> (state: Self)
        ensures
            state.spec_bits() == switched(
                self.spec_bits(),
                ConfigFlags::FLAG_WINDOW_ALWAYS_RUN,
                enabled,
            ),
            state@ == (if enabled {
                self@.insert(ConfigFlags::FLAG_WINDOW_ALWAYS_RUN)
            } else {
                self@.remove(ConfigFlags::FLAG_WINDOW_ALWAYS_RUN)
            }),
            self.only_flags() ==> state.only_flags(),
    {
        self.with(ConfigFlags::FLAG_WINDOW_ALWAYS_RUN, enabled)
    }

    pub fn window_transparent(&self) -> (set: bool)
        ensures
            set == self@.contains(ConfigFlags::FLAG_WINDOW_TRANSPARENT),
    {
        self.has(ConfigFlags::FLAG_WINDOW_TRANSPARENT)
    }

    /// Set to allow transparent framebuffer
    pub fn set_window_transparent(self, enabled: bool) -> (state: Self)
        ensures
            state.spec_bits() == switched(
                self.spec_bits(),
                ConfigFlags::FLAG_WINDOW_TRANSPARENT,
                enabled,
            ),
            state@ == (if enabled {
                self@.insert(ConfigFlags::FLAG_WINDOW_TRANSPARENT)
            } else {
                self@.remove(ConfigFlags::FLAG_WINDOW_TRANSPARENT)
            }),
            self.only_flags() ==> state.only_flags(),
    {
        self.with(ConfigFlags::FLAG_WINDOW_TRANSPARENT, enabled)
    }

    pub fn window_highdpi(&self) -> (set: bool)
        ensures
            set == self@.contains(ConfigFlags::FLAG_WINDOW_HIGHDPI),
    {
        self.has(ConfigFlags::FLAG_WINDOW_HIGHDPI)
    }

    /// Set to support HighDPI
    pub fn set_window_highdpi(self, enabled: bool) -> (state: Self)
        ensures
            state.spec_bits() == switched(
                self.spec_bits(),
                ConfigFlags::FLAG_WINDOW_HIGHDPI,
                enabled,
            ),
            state@ == (if enabled {
                self@.insert(ConfigFlags::FLAG_WINDOW_HIGHDPI)
            } else {
                self@.remove(ConfigFlags::FLAG_WINDOW_HIGHDPI)
            }),
            self.only_flags() ==> state.only_flags(),
    {
        self.with(ConfigFlags::FLAG_WINDOW_HIGHDPI, enabled)
    }

    pub fn window_borderless(&self) -> (set: bool)
        ensures
            set == self@.contains(ConfigFlags::FLAG_BORDERLESS_WINDOWED_MODE),
    {
        self.has(ConfigFlags::FLAG_BORDERLESS_WINDOWED_MODE)
    }

    /// Set to run program in borderless windowed mode
    pub fn set_window_borderless(self, enabled: bool) -> (state: Self)
        ensures
            state.spec_bits() == switched(
                self.spec_bits(),
                ConfigFlags::FLAG_BORDERLESS_WINDOWED_MODE,
                enabled,
            ),
            state@ == (if enabled {
                self@.insert(ConfigFlags::FLAG_BORDERLESS_WINDOWED_MODE)
            } else {
                self@.remove(ConfigFlags::FLAG_BORDERLESS_WINDOWED_MODE)
            }),
            self.only_flags() ==> state.only_flags(),
    {
        self.with(ConfigFlags::FLAG_BORDERLESS_WINDOWED_MODE, enabled)
    }

    pub fn msaa(&self) -> (set: bool)
        ensures
            set == self@.contains(ConfigFlags::FLAG_MSAA_4X_HINT),
    {
        self.has(ConfigFlags::FLAG_MSAA_4X_HINT)
    }

    /// Set to try enabling MSAA 4X
    pub fn set_msaa(self, enabled: bool) -> (state: Self)
        ensures
            state.spec_bits() == switched(
                self.spec_bits(),
                ConfigFlags::FLAG_MSAA_4X_HINT,
                enabled,
            ),
            state@ == (if enabled {
                self@.insert(ConfigFlags::FLAG_MSAA_4X_HINT)
            } else {
                self@.remove(ConfigFlags::FLAG_MSAA_4X_HINT)
            }),
            self.only_flags() ==> state.only_flags(),
    {
        self.with(ConfigFlags::FLAG_MSAA_4X_HINT, enabled)
    }

    pub fn interlaced_hint(&self) -> (set: bool)
        ensures
            set == self@.contains(ConfigFlags::FLAG_INTERLACED_HINT),
    {
        self.has(ConfigFlags::FLAG_INTERLACED_HINT)
    }

    /// Set to try enabling interlaced video format (for V3D)
    pub fn set_interlaced_hint(self, enabled: bool) -> (state: Self)
        ensures
            state.spec_bits() == switched(
                self.spec_bits(),
                ConfigFlags::FLAG_INTERLACED_HINT,
                enabled,
            ),
            state@ == (if enabled {
                self@.insert(ConfigFlags::FLAG_INTERLACED_HINT)
            } else {
                self@.remove(ConfigFlags::FLAG_INTERLACED_HINT)
            }),
            self.only_flags() ==> state.only_flags(),
    {
        self.with(ConfigFlags::FLAG_INTERLACED_HINT, enabled)
    }
}

/// What the native library reports of one monitor, with its name as text.
#[derive(Clone, Debug)]
pub struct MonitorInfo {
    pub width: i32,
    pub height: i32,
    pub physical_width: i32,
    pub physical_height: i32,
    pub name: String,
}

/// Whether `monitor` is the index of one of `count` connected monitors.
///
/// The native library answers questions about a monitor only for such an
/// index, so every such question is preceded by this test.
pub fn monitor_in_range(monitor: i32, count: i32) -> (valid: bool)
    ensures
        valid == monitor_index_valid(monitor as int, count as int),
{
    monitor < count && monitor >= 0
}

/// Gets the attributes of the monitor as well as the name, from the sizes
/// and the name bytes that the native library reported for it.
///
/// Fails exactly when the name is not well-formed UTF-8.
pub fn get_monitor_info(
    width: i32,
    height: i32,
    physical_width: i32,
    physical_height: i32,
    name: &[u8],
) -> (info: Result<MonitorInfo, InvalidUtf8>)
    ensures
        match info {
            Ok(monitor) => {
                &&& valid_utf8(name@)
                &&& monitor.width == width
                &&& monitor.height == height
                &&& monitor.physical_width == physical_width
                &&& monitor.physical_height == physical_height
                &&& monitor.name@ == decode_utf8(name@)
            },
            Err(_) => !valid_utf8(name@),
        },
{
    match string_from_utf8(name) {
        Ok(name) => Ok(MonitorInfo { width, height, physical_height, physical_width, name }),
        Err(error) => Err(error),
    }
}

/// The state after the window was asked about `flag` and the answer taken
/// over into `state`.
fn asked<F: Fn(u32) -> bool>(state: WindowState, is_window_state: &F, flag: ConfigFlags) -> (next:
    WindowState)
    requires
        call_requires(*is_window_state, (flag.mask() as u32,)),
    ensures
        call_ensures(*is_window_state, (flag.mask() as u32,), next@.contains(flag)),
        forall|other: ConfigFlags|
            other != flag ==> #[trigger] next@.contains(other) == state@.contains(other),
        state.only_flags() ==> next.only_flags(),
{
    let set = is_window_state(flag.bits() as u32);
    state.with(flag, set)
}

/// Get the window config state, by asking `is_window_state` about each flag
/// in turn.
///
/// `is_window_state` stands for the native query that takes a flag's bit and
/// tells whether the window has that flag. Every flag but mouse passthrough
/// and borderless windowed mode is asked about, once; the state holds a flag
/// exactly when the answer for it was `true`, and nothing else.
pub fn get_window_state<F: Fn(u32) -> bool>(is_window_state: F) -> (state: WindowState)
    requires
        forall|flag: ConfigFlags|
            is_queried(flag) ==> call_requires(is_window_state, (#[trigger] flag.mask() as u32,)),
    ensures
        state.only_flags(),
        forall|flag: ConfigFlags|
            is_queried(flag) ==> call_ensures(
                is_window_state,
                (flag.mask() as u32,),
                #[trigger] state@.contains(flag),
            ),
        forall|flag: ConfigFlags| !is_queried(flag) ==> !(#[trigger] state@.contains(flag)),
{
    let state = WindowState::default();
    let state = asked(state, &is_window_state, ConfigFlags::FLAG_VSYNC_HINT);
    let state = asked(state, &is_window_state, ConfigFlags::FLAG_FULLSCREEN_MODE);
    let state = asked(state, &is_window_state, ConfigFlags::FLAG_WINDOW_RESIZABLE);
    let state = asked(state, &is_window_state, ConfigFlags::FLAG_WINDOW_UNDECORATED);
    let state = asked(state, &is_window_state, ConfigFlags::FLAG_WINDOW_HIDDEN);
    let state = asked(state, &is_window_state, ConfigFlags::FLAG_WINDOW_MINIMIZED);
    let state = asked(state, &is_window_state, ConfigFlags::FLAG_WINDOW_MAXIMIZED);
    let state = asked(state, &is_window_state, ConfigFlags::FLAG_WINDOW_UNFOCUSED);
    let state = asked(state, &is_window_state, ConfigFlags::FLAG_WINDOW_TOPMOST);
    let state = asked(state, &is_window_state, ConfigFlags::FLAG_WINDOW_ALWAYS_RUN);
    let state = asked(state, &is_window_state, ConfigFlags::FLAG_WINDOW_TRANSPARENT);
    let state = asked(state, &is_window_state, ConfigFlags::FLAG_WINDOW_HIGHDPI);
    let state = asked(state, &is_window_state, ConfigFlags::FLAG_MSAA_4X_HINT);
    let state = asked(state, &is_window_state, ConfigFlags::FLAG_INTERLACED_HINT);
    state
}

} // verus!

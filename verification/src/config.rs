//! The startup configuration of the one window.
//!
//! The configuration document is read by `serde_json` into the configuration
//! types of `tauri_utils`. Of its list of windows the first entry counts; with
//! an empty list the defaults of `tauri_utils` apply. What is read from a
//! text is not a function of the text alone, so the contracts say what is
//! made of whatever was read. Sizes are logical pixels
//! held as IEEE 754 binary64 bit patterns, so that no value is rounded on its
//! way from the document to the window.

use vstd::prelude::*;

verus! {

/// One window entry of a configuration document, as it was read.
#[derive(Clone, Debug, PartialEq, Eq)]
pub struct WindowEntry {
    /// The address that the window loads.
    pub url: String,
    /// The width in logical pixels, as the bits of a binary64 number.
    pub width_bits: u64,
    /// The height in logical pixels, as the bits of a binary64 number.
    pub height_bits: u64,
    /// Whether the user may resize the window.
    pub resizable: bool,
    /// Whether the window starts in fullscreen.
    pub fullscreen: bool,
}

/// What a `WindowEntry` or a `WindowSpec` is to a contract.
pub struct WindowEntryView {
    pub url: Seq<char>,
    pub width_bits: u64,
    pub height_bits: u64,
    pub resizable: bool,
    pub fullscreen: bool,
}

impl View for WindowEntry {
    type V = WindowEntryView;

    open spec fn view(&self) -> WindowEntryView {
        WindowEntryView {
            url: self.url@,
            width_bits: self.width_bits,
            height_bits: self.height_bits,
            resizable: self.resizable,
            fullscreen: self.fullscreen,
        }
    }
}

/// The smallest bit pattern that is not a finite positive number: positive infinity.
pub const INFINITY_BITS: u64 = 0x7FF0_0000_0000_0000;

/// Whether `bits` is a binary64 number greater than zero and finite: the sign
/// bit is clear, the exponent is not all ones, and the number is not zero.
pub open spec fn is_positive_length(bits: u64) -> bool {
    0 < bits < INFINITY_BITS
}

impl WindowEntryView {
    /// Whether both sides are greater than zero and finite.
    pub open spec fn has_positive_size(self) -> bool {
        is_positive_length(self.width_bits) && is_positive_length(self.height_bits)
    }
}

/// Why no window can be started from a configuration.
#[derive(Clone, Copy, Debug, PartialEq, Eq, Structural)]
pub enum ConfigError {
    /// The document is not a configuration.
    Malformed,
    /// The window's width or height is not a finite number greater than zero.
    InvalidSize,
}

/// The configuration of the window, fixed at startup. Its width and height
/// are finite and greater than zero.
#[derive(Debug, PartialEq, Eq)]
pub struct WindowSpec {
    entry: WindowEntry,
}

impl View for WindowSpec {
    type V = WindowEntryView;

    closed spec fn view(&self) -> WindowEntryView {
        self.entry@
    }
}

impl Clone for WindowSpec {
    fn clone(&self) -> (r: WindowSpec)
        ensures
            r@ == self@,
    {
        proof {
            use_type_invariant(self);
        }
        WindowSpec {
            entry: WindowEntry {
                url: self.entry.url.clone(),
                width_bits: self.entry.width_bits,
                height_bits: self.entry.height_bits,
                resizable: self.entry.resizable,
                fullscreen: self.entry.fullscreen,
            },
        }
    }
}

/// Whether `bits` is a binary64 number greater than zero and finite.
pub fn positive_length(bits: u64) -> (b: bool)
    ensures
        b == is_positive_length(bits),
{
    0 < bits && bits < INFINITY_BITS
}

impl WindowSpec {
    #[verifier::type_invariant]
    spec fn sized(&self) -> bool {
        self.entry@.has_positive_size()
    }

    /// Accepts an entry whose size is positive, and no other.
    pub fn new(entry: WindowEntry) -> (r: Result<WindowSpec, ConfigError>)
        ensures
            entry@.has_positive_size() ==> r.is_ok() && r.unwrap()@ == entry@,
            !entry@.has_positive_size() ==> r == Err::<WindowSpec, ConfigError>(
                ConfigError::InvalidSize,
            ),
    {
        if positive_length(entry.width_bits) && positive_length(entry.height_bits) {
            Ok(WindowSpec { entry })
        } else {
            Err(ConfigError::InvalidSize)
        }
    }

    /// The address that the window loads.
    pub fn url(&self) -> (r: &String)
        ensures
            r@ == self@.url,
    {
        &self.entry.url
    }

    /// The width in logical pixels, as the bits of a binary64 number.
    pub fn width_bits(&self) -> (r: u64)
        ensures
            r == self@.width_bits,
            is_positive_length(r),
    {
        proof {
            use_type_invariant(self);
        }
        self.entry.width_bits
    }

    /// The height in logical pixels, as the bits of a binary64 number.
    pub fn height_bits(&self) -> (r: u64)
        ensures
            r == self@.height_bits,
            is_positive_length(r),
    {
        proof {
            use_type_invariant(self);
        }
        self.entry.height_bits
    }

    /// Whether the user may resize the window.
    pub fn resizable(&self) -> (r: bool)
        ensures
            r == self@.resizable,
    {
        self.entry.resizable
    }

    /// Whether the window starts in fullscreen.
    pub fn fullscreen(&self) -> (r: bool)
        ensures
            r == self@.fullscreen,
    {
        self.entry.fullscreen
    }
}

/// The error of `serde_json`, carried from the reader to the point where it
/// becomes a `ConfigError`.
#[verifier::external_type_specification]
#[verifier::external_body]
pub struct ExJsonError(serde_json::Error);

/// The views of the entries, in order.
pub open spec fn entry_views(entries: Seq<WindowEntry>) -> Seq<WindowEntryView> {
    entries.map_values(|e: WindowEntry| e@)
}

/// The entry that stands in when a configuration lists no window: the page
/// `index.html` in a resizable window of 800 by 600 logical pixels that is
/// not fullscreen.
pub open spec fn default_entry() -> WindowEntryView {
    WindowEntryView {
        url: "index.html"@,
        width_bits: 0x4089_0000_0000_0000,
        height_bits: 0x4082_C000_0000_0000,
        resizable: true,
        fullscreen: false,
    }
}

/// Calls `serde_json::from_str` for a `tauri_utils::config::Config` and hands
/// out the entries of its `tauri.windows`, each field for field: the url as
/// its `Display` text, width and height as their bits. Nothing is claimed of
/// the outcome: a document may name a file in `package.version`, which is
/// then read, so the same text need not read the same twice.
#[verifier::external_body]
pub(crate) fn read_windows(text: &str) -> (r: Result<Vec<WindowEntry>, serde_json::Error>) {
    let config: tauri_utils::config::Config = serde_json::from_str(text)?;
    let mut entries = Vec::new();
    for w in config.tauri.windows.iter() {
        entries.push(WindowEntry {
            url: w.url.to_string(),
            width_bits: w.width.to_bits(),
            height_bits: w.height.to_bits(),
            resizable: w.resizable,
            fullscreen: w.fullscreen,
        });
    }
    Ok(entries)
}

/// Calls `WindowConfig::default` of `tauri_utils` and hands out the same
/// fields. Its source sets the url to the app path `index.html`, the width to
/// 800, the height to 600, `resizable` to true and `fullscreen` to false.
#[verifier::external_body]
fn default_window() -> (r: WindowEntry)
    ensures
        r@ == default_entry(),
{
    let w = tauri_utils::config::WindowConfig::default();
    WindowEntry {
        url: w.url.to_string(),
        width_bits: w.width.to_bits(),
        height_bits: w.height.to_bits(),
        resizable: w.resizable,
        fullscreen: w.fullscreen,
    }
}

/// The entry that governs: the first of the list, or the default entry where
/// the list is empty.
pub open spec fn governing_entry(entries: Seq<WindowEntryView>) -> WindowEntryView {
    if entries.len() > 0 {
        entries[0]
    } else {
        default_entry()
    }
}

/// What a configuration resolves to, given what was read from it (`None`: it
/// could not be read).
pub open spec fn resolved(parsed: Option<Seq<WindowEntryView>>) -> Result<
    WindowEntryView,
    ConfigError,
> {
    match parsed {
        None => Err(ConfigError::Malformed),
        Some(entries) => if governing_entry(entries).has_positive_size() {
            Ok(governing_entry(entries))
        } else {
            Err(ConfigError::InvalidSize)
        },
    }
}

/// What a resolution is to a contract.
pub open spec fn outcome(r: Result<WindowSpec, ConfigError>) -> Result<
    WindowEntryView,
    ConfigError,
> {
    match r {
        Ok(spec) => Ok(spec@),
        Err(e) => Err(e),
    }
}

/// Picks the governing entry of a list that was read.
pub fn first_window(entries: &Vec<WindowEntry>) -> (r: WindowEntry)
    ensures
        r@ == governing_entry(entry_views(entries@)),
{
    if entries.len() > 0 {
        let e = &entries[0];
        WindowEntry {
            url: e.url.clone(),
            width_bits: e.width_bits,
            height_bits: e.height_bits,
            resizable: e.resizable,
            fullscreen: e.fullscreen,
        }
    } else {
        default_window()
    }
}

/// Resolves what was read from a configuration (`None`: it could not be
/// read) into the window's configuration.
pub fn window_from(parsed: Option<Vec<WindowEntry>>) -> (r: Result<WindowSpec, ConfigError>)
    ensures
        outcome(r) == resolved(
            match parsed {
                Some(entries) => Some(entry_views(entries@)),
                None => None,
            },
        ),
{
    match parsed {
        None => Err(ConfigError::Malformed),
        Some(entries) => WindowSpec::new(first_window(&entries)),
    }
}

/// Resolves a configuration document into the window's configuration. A
/// document that cannot be read is an error, never a default. What is read
/// is the reader's to say; whatever it is, the result is what `window_from`
/// makes of it.
pub fn resolve(text: &str) -> (r: Result<WindowSpec, ConfigError>)
    ensures
        exists|parsed: Option<Seq<WindowEntryView>>| outcome(r) == #[trigger] resolved(parsed),
{
    match read_windows(text) {
        Ok(entries) => {
            let r = window_from(Some(entries));
            assert(outcome(r) == resolved(Some(entry_views(entries@))));
            r
        },
        Err(_) => {
            let r = window_from(None);
            assert(outcome(r) == resolved(None::<Seq<WindowEntryView>>));
            r
        },
    }
}

} // verus!

//! Physical displays available for capture.
use crate::text::{decimal, is_ascii_alphanumeric, push_decimal, trim, trim_seq};
use vstd::prelude::*;
use vstd::std_specs::cmp::PartialEqSpecImpl;
use vstd::string::StringSliceAdditionalSpecFns;
use vstd::utf8::encode_utf8;

verus! {

/// Maximum persisted monitor identifier length accepted at trust boundaries.
pub const MAX_MONITOR_ID_LEN: usize = 96;

/// Stable, opaque identifier for a physical display.
#[derive(Debug, Eq, Hash)]
pub struct MonitorId(String);

/// Validation failure for an opaque monitor identifier.
#[derive(Clone, Copy, Debug, PartialEq, Eq, Structural)]
pub enum MonitorIdError {
    /// Identifier is empty or exceeds the trust-boundary limit.
    InvalidLength,
    /// Identifier contains a character outside the portable opaque subset.
    InvalidCharacter,
}

/// Characters allowed in a monitor identifier.
pub open spec fn monitor_id_char(c: char) -> bool {
    is_ascii_alphanumeric(c) || c == '-' || c == '_' || c == '.' || c == ':'
}

/// What validating a monitor identifier gives; the length is counted in UTF-8 bytes.
pub open spec fn monitor_id_check(value: Seq<char>) -> Result<(), MonitorIdError> {
    let bytes = encode_utf8(value).len() as usize;
    if bytes == 0 || bytes > MAX_MONITOR_ID_LEN {
        Err(MonitorIdError::InvalidLength)
    } else if !(forall|i: int| 0 <= i < value.len() ==> monitor_id_char(#[trigger] value[i])) {
        Err(MonitorIdError::InvalidCharacter)
    } else {
        Ok(())
    }
}

impl View for MonitorId {
    type V = Seq<char>;

    closed spec fn view(&self) -> Seq<char> {
        self.0@
    }
}

impl PartialEq for MonitorId {
    fn eq(&self, other: &Self) -> (r: bool) {
        self.0 == other.0
    }
}

impl PartialEqSpecImpl for MonitorId {
    open spec fn obeys_eq_spec() -> bool {
        true
    }

    open spec fn eq_spec(&self, other: &Self) -> bool {
        self@ == other@
    }
}

impl Clone for MonitorId {
    fn clone(&self) -> (r: Self)
        ensures
            r@ == self@,
    {
        MonitorId(self.0.clone())
    }
}

impl MonitorId {
    /// Creates a validated opaque monitor identifier.
    pub fn new(value: &str) -> (r: Result<Self, MonitorIdError>)
        ensures
            monitor_id_check(value@) matches Err(e) ==> r == Err::<MonitorId, MonitorIdError>(e),
            monitor_id_check(value@) is Ok ==> (r matches Ok(id) && id@ == value@),
    {
        let bytes = value.len();
        if bytes == 0 || bytes > MAX_MONITOR_ID_LEN {
            return Err(MonitorIdError::InvalidLength);
        }
        let n = value.unicode_len();
        let mut i: usize = 0;
        while i < n
            invariant
                n == value@.len(),
                i <= n,
                0 < encode_utf8(value@).len() as usize <= MAX_MONITOR_ID_LEN,
                forall|j: int| 0 <= j < i ==> monitor_id_char(#[trigger] value@[j]),
            decreases n - i,
        {
            let c = value.get_char(i);
            let allowed = ('a' <= c && c <= 'z') || ('A' <= c && c <= 'Z') || ('0' <= c && c <= '9')
                || c == '-' || c == '_' || c == '.' || c == ':';
            if !allowed {
                assert(!monitor_id_char(value@[i as int]));
                return Err(MonitorIdError::InvalidCharacter);
            }
            i = i + 1;
        }
        Ok(MonitorId(String::from_str(value)))
    }

    /// Returns the opaque identifier value.
    pub fn as_str(&self) -> (r: &str)
        ensures
            r@ == self@,
    {
        self.0.as_str()
    }

    /// The identifier text, owned.
    pub fn to_string(&self) -> (r: String)
        ensures
            r@ == self@,
    {
        self.0.clone()
    }
}

impl std::str::FromStr for MonitorId {
    type Err = MonitorIdError;

    fn from_str(value: &str) -> (r: Result<Self, Self::Err>)
        ensures
            monitor_id_check(value@) matches Err(e) ==> r == Err::<MonitorId, MonitorIdError>(e),
            monitor_id_check(value@) is Ok ==> (r matches Ok(id) && id@ == value@),
    {
        Self::new(value)
    }
}

/// A native display available for one-shot capture.
#[derive(Debug, PartialEq, Eq)]
pub struct MonitorInfo {
    /// Opaque stable identifier used in persisted settings.
    pub id: MonitorId,
    /// Human-readable label that excludes raw native handles.
    pub label: String,
    /// Physical-pixel horizontal origin in the virtual desktop.
    pub x: i32,
    /// Physical-pixel vertical origin in the virtual desktop.
    pub y: i32,
    /// Physical-pixel width after orientation is applied.
    pub width: u32,
    /// Physical-pixel height after orientation is applied.
    pub height: u32,
    /// Effective display scale as an integer percentage.
    pub scale_factor_percent: u32,
    /// Clockwise display rotation in degrees.
    pub rotation_degrees: u16,
    /// Whether the system identifies this as the primary display.
    pub is_primary: bool,
}

/// Validation failure for native display metadata.
#[derive(Clone, Copy, Debug, PartialEq, Eq, Structural)]
pub enum MonitorInfoError {
    /// A user-facing display label must not be empty.
    EmptyLabel,
    /// Physical capture dimensions must be non-zero.
    ZeroDimension,
    /// Display scale must be a positive percentage.
    ZeroScale,
    /// Display orientation must be a right-angle rotation.
    InvalidRotation(u16),
}

/// The message of a monitor identifier failure.
pub open spec fn id_error_text(e: MonitorIdError) -> Seq<char> {
    match e {
        MonitorIdError::InvalidLength => "monitor identifier has an invalid length"@,
        MonitorIdError::InvalidCharacter => "monitor identifier contains an invalid character"@,
    }
}

impl MonitorIdError {
    /// The user-safe message of this failure.
    pub fn to_string(&self) -> (r: String)
        ensures
            r@ == id_error_text(*self),
    {
        match self {
            MonitorIdError::InvalidLength => String::from_str("monitor identifier has an invalid length"),
            MonitorIdError::InvalidCharacter => String::from_str(
                "monitor identifier contains an invalid character",
            ),
        }
    }
}

/// The message of a display metadata failure.
pub open spec fn info_error_text(e: MonitorInfoError) -> Seq<char> {
    match e {
        MonitorInfoError::EmptyLabel => "monitor label must not be empty"@,
        MonitorInfoError::ZeroDimension => "monitor dimensions must be non-zero"@,
        MonitorInfoError::ZeroScale => "monitor scale must be positive"@,
        MonitorInfoError::InvalidRotation(r) => "unsupported monitor rotation: "@ + decimal(r as nat),
    }
}

impl MonitorInfoError {
    /// The user-safe message of this failure.
    pub fn to_string(&self) -> (r: String)
        ensures
            r@ == info_error_text(*self),
    {
        match self {
            MonitorInfoError::EmptyLabel => String::from_str("monitor label must not be empty"),
            MonitorInfoError::ZeroDimension => String::from_str("monitor dimensions must be non-zero"),
            MonitorInfoError::ZeroScale => String::from_str("monitor scale must be positive"),
            MonitorInfoError::InvalidRotation(r) => {
                let mut s = String::from_str("unsupported monitor rotation: ");
                push_decimal(&mut s, *r as u64);
                s
            },
        }
    }
}

/// What validating display metadata gives.
pub open spec fn monitor_info_check(
    label: Seq<char>,
    width: u32,
    height: u32,
    scale_factor_percent: u32,
    rotation_degrees: u16,
) -> Result<(), MonitorInfoError> {
    if trim_seq(label).len() == 0 {
        Err(MonitorInfoError::EmptyLabel)
    } else if width == 0 || height == 0 {
        Err(MonitorInfoError::ZeroDimension)
    } else if scale_factor_percent == 0 {
        Err(MonitorInfoError::ZeroScale)
    } else if !(rotation_degrees == 0 || rotation_degrees == 90 || rotation_degrees == 180
        || rotation_degrees == 270) {
        Err(MonitorInfoError::InvalidRotation(rotation_degrees))
    } else {
        Ok(())
    }
}

impl Clone for MonitorInfo {
    fn clone(&self) -> (r: Self)
        ensures
            r.id@ == self.id@,
            r.label@ == self.label@,
            r.x == self.x,
            r.y == self.y,
            r.width == self.width,
            r.height == self.height,
            r.scale_factor_percent == self.scale_factor_percent,
            r.rotation_degrees == self.rotation_degrees,
            r.is_primary == self.is_primary,
    {
        MonitorInfo {
            id: self.id.clone(),
            label: self.label.clone(),
            x: self.x,
            y: self.y,
            width: self.width,
            height: self.height,
            scale_factor_percent: self.scale_factor_percent,
            rotation_degrees: self.rotation_degrees,
            is_primary: self.is_primary,
        }
    }
}

impl MonitorInfo {
    /// Validates physical display metadata returned by a native adapter; the label is trimmed.
    pub fn new(
        id: MonitorId,
        label: String,
        x: i32,
        y: i32,
        width: u32,
        height: u32,
        scale_factor_percent: u32,
        rotation_degrees: u16,
        is_primary: bool,
    ) -> (r: Result<Self, MonitorInfoError>)
        ensures
            monitor_info_check(label@, width, height, scale_factor_percent, rotation_degrees) matches Err(
                e,
            ) ==> r == Err::<MonitorInfo, MonitorInfoError>(e),
            monitor_info_check(label@, width, height, scale_factor_percent, rotation_degrees) is Ok
                ==> (r matches Ok(m) && m.id@ == id@ && m.label@ == trim_seq(label@) && m.x == x
                && m.y == y && m.width == width && m.height == height && m.scale_factor_percent
                == scale_factor_percent && m.rotation_degrees == rotation_degrees && m.is_primary
                == is_primary),
    {
        let label = trim(label.as_str());
        if label.unicode_len() == 0 {
            return Err(MonitorInfoError::EmptyLabel);
        }
        if width == 0 || height == 0 {
            return Err(MonitorInfoError::ZeroDimension);
        }
        if scale_factor_percent == 0 {
            return Err(MonitorInfoError::ZeroScale);
        }
        if !(rotation_degrees == 0 || rotation_degrees == 90 || rotation_degrees == 180
            || rotation_degrees == 270) {
            return Err(MonitorInfoError::InvalidRotation(rotation_degrees));
        }
        Ok(Self {
            id,
            label,
            x,
            y,
            width,
            height,
            scale_factor_percent,
            rotation_degrees,
            is_primary,
        })
    }
}

} // verus!

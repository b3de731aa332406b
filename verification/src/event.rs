//! Event kinds and the canonical record built for one reported event.

use vstd::prelude::*;

verus! {

/// The closed set of activity events the reporter knows about.
///
/// Each kind carries two fixed string projections: a display label for the
/// local human-readable log and a machine-readable tag for the wire payload.
#[derive(Clone, Copy, Debug, PartialEq, Eq, Structural)]
pub enum EventType {
    KeyboardPress,
    ClipboardCopy,
}

/// The display label of a kind, as it appears in the local log line.
pub open spec fn spec_label(k: EventType) -> Seq<char> {
    match k {
        EventType::KeyboardPress => "按下按键"@,
        EventType::ClipboardCopy => "复制文本"@,
    }
}

/// The machine-readable tag of a kind, as it appears in the wire payload.
pub open spec fn spec_tag(k: EventType) -> Seq<char> {
    match k {
        EventType::KeyboardPress => "keyboard_press"@,
        EventType::ClipboardCopy => "clipboard_copy"@,
    }
}

impl EventType {
    /// The display label used in the local log line.
    pub fn as_str(&self) -> (r: &'static str)
        ensures
            r@ == spec_label(*self),
    {
        match self {
            EventType::KeyboardPress => "按下按键",
            EventType::ClipboardCopy => "复制文本",
        }
    }

    /// The machine-readable tag used in the wire payload.
    pub fn as_event_type(&self) -> (r: &'static str)
        ensures
            r@ == spec_tag(*self),
    {
        match self {
            EventType::KeyboardPress => "keyboard_press",
            EventType::ClipboardCopy => "clipboard_copy",
        }
    }
}

/// The canonical, immutable record of one reported event. Built once per
/// reporting call and never mutated afterwards.
pub struct EventRecord {
    /// Stable hardware identifier of the reporting machine; opaque here,
    /// supplied by an external collaborator and passed through unchanged.
    pub device_id: String,
    /// Externally configured human label for the device.
    pub device_name: String,
    /// Which kind of activity was captured.
    pub event_kind: EventType,
    /// The captured payload, treated as opaque text and never parsed.
    pub content: String,
    /// Event time as a timezone-independent Unix timestamp in seconds.
    pub occurred_at: i64,
    /// Textual UTC offset (e.g. `UTC+8`) of the originating clock at
    /// capture time, from the same clock read as `occurred_at`.
    pub utc_offset: String,
}

/// The display labels and machine tags are fixed and distinct per kind:
/// no two kinds share a label, and no two kinds share a tag.
pub proof fn lemma_projections_distinct(a: EventType, b: EventType)
    requires
        a != b,
    ensures
        spec_label(a) != spec_label(b),
        spec_tag(a) != spec_tag(b),
{
    reveal_strlit("按下按键");
    reveal_strlit("复制文本");
    reveal_strlit("keyboard_press");
    reveal_strlit("clipboard_copy");
    assert(spec_label(a)[0] != spec_label(b)[0]);
    assert(spec_tag(a)[0] != spec_tag(b)[0]);
}

} // verus!

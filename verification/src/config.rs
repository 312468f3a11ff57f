//! The configuration of the bridge: a brightness level, an idle timeout, and the
//! descriptors that bind buttons and knobs to service calls.

use vstd::prelude::*;

verus! {

/// Binds a button to a fixed service call and names the icon shown on it.
#[derive(Debug, Clone, PartialEq, Eq)]
pub struct ButtonConfig {
    pub id: u8,
    pub domain: String,
    pub service: String,
    pub entity_id: String,
    pub icon: String,
}

/// Binds a knob to a service call that carries a signed step under `key`.
#[derive(Debug, Clone, PartialEq, Eq)]
pub struct KnobConfig {
    pub id: u8,
    pub domain: String,
    pub service: String,
    pub entity_id: String,
    pub key: String,
    pub step: i64,
}

/// Everything the bridge is configured with.
#[derive(Debug, Clone, PartialEq, Eq)]
pub struct Config {
    /// Display brightness while the surface is in use.
    pub brightness: u8,
    /// Seconds without input after which the surface dims.
    pub timeout: u64,
    pub buttons: Vec<ButtonConfig>,
    pub knobs: Vec<KnobConfig>,
}

/// A button descriptor as a mathematical value.
pub struct ButtonView {
    pub id: u8,
    pub domain: Seq<char>,
    pub service: Seq<char>,
    pub entity_id: Seq<char>,
    pub icon: Seq<char>,
}

/// A knob descriptor as a mathematical value.
pub struct KnobView {
    pub id: u8,
    pub domain: Seq<char>,
    pub service: Seq<char>,
    pub entity_id: Seq<char>,
    pub key: Seq<char>,
    pub step: i64,
}

/// A configuration as a mathematical value.
pub struct ConfigView {
    pub brightness: u8,
    pub timeout: u64,
    pub buttons: Seq<ButtonView>,
    pub knobs: Seq<KnobView>,
}

impl View for ButtonConfig {
    type V = ButtonView;

    open spec fn view(&self) -> ButtonView {
        ButtonView {
            id: self.id,
            domain: self.domain@,
            service: self.service@,
            entity_id: self.entity_id@,
            icon: self.icon@,
        }
    }
}

impl View for KnobConfig {
    type V = KnobView;

    open spec fn view(&self) -> KnobView {
        KnobView {
            id: self.id,
            domain: self.domain@,
            service: self.service@,
            entity_id: self.entity_id@,
            key: self.key@,
            step: self.step,
        }
    }
}

/// The descriptors of `buttons`, in the same order.
pub open spec fn button_views(buttons: Seq<ButtonConfig>) -> Seq<ButtonView> {
    buttons.map_values(|b: ButtonConfig| b@)
}

/// The descriptors of `knobs`, in the same order.
pub open spec fn knob_views(knobs: Seq<KnobConfig>) -> Seq<KnobView> {
    knobs.map_values(|k: KnobConfig| k@)
}

impl View for Config {
    type V = ConfigView;

    open spec fn view(&self) -> ConfigView {
        ConfigView {
            brightness: self.brightness,
            timeout: self.timeout,
            buttons: button_views(self.buttons@),
            knobs: knob_views(self.knobs@),
        }
    }
}

impl ButtonConfig {
    /// A copy that describes the same button.
    pub fn duplicate(&self) -> (copy: ButtonConfig)
        ensures
            copy@ == self@,
    {
        ButtonConfig {
            id: self.id,
            domain: self.domain.clone(),
            service: self.service.clone(),
            entity_id: self.entity_id.clone(),
            icon: self.icon.clone(),
        }
    }
}

impl KnobConfig {
    /// A copy that describes the same knob.
    pub fn duplicate(&self) -> (copy: KnobConfig)
        ensures
            copy@ == self@,
    {
        KnobConfig {
            id: self.id,
            domain: self.domain.clone(),
            service: self.service.clone(),
            entity_id: self.entity_id.clone(),
            key: self.key.clone(),
            step: self.step,
        }
    }
}

} // verus!

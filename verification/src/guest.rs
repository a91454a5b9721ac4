//! Guest configurations, as far as the control plane looks into them.

use vstd::prelude::*;

verus! {

/// What the control plane reads of a guest configuration.
#[derive(Debug, Clone, PartialEq, Eq)]
pub struct GuestFacts {
    /// `base.id`, which is also the runtime VM id.
    pub id: usize,
    /// `base.name`.
    pub name: String,
    /// `kernel.image_location`.
    pub image_location: Option<String>,
    /// `kernel.kernel_path`.
    pub kernel_path: String,
    /// `kernel.ramdisk_path`.
    pub ramdisk_path: Option<String>,
    /// `kernel.dtb_path`.
    pub dtb_path: Option<String>,
}

/// The view of [`GuestFacts`].
pub struct GuestFactsView {
    /// `base.id`.
    pub id: usize,
    /// `base.name`.
    pub name: Seq<char>,
    /// `kernel.image_location`.
    pub image_location: Option<Seq<char>>,
    /// `kernel.kernel_path`.
    pub kernel_path: Seq<char>,
    /// `kernel.ramdisk_path`.
    pub ramdisk_path: Option<Seq<char>>,
    /// `kernel.dtb_path`.
    pub dtb_path: Option<Seq<char>>,
}

impl View for GuestFacts {
    type V = GuestFactsView;

    open spec fn view(&self) -> GuestFactsView {
        GuestFactsView {
            id: self.id,
            name: self.name@,
            image_location: crate::text::optional(self.image_location),
            kernel_path: self.kernel_path@,
            ramdisk_path: crate::text::optional(self.ramdisk_path),
            dtb_path: crate::text::optional(self.dtb_path),
        }
    }
}

/// What the guest configuration parser makes of a text.
///
/// A configuration that boots through firmware is valid only on the
/// architectures that have the firmware, and a number is valid only where it
/// fits a machine word: whether such a text is accepted depends on the target
/// the hypervisor is built for.
pub enum GuestReading {
    /// No target accepts the text.
    Refused,
    /// Every target accepts the text, with these facts.
    Accepted(GuestFactsView),
    /// Some targets accept the text, with these facts, and others refuse it.
    PerTarget(GuestFactsView),
}

/// What `axvmconfig::GuestConfig::from_toml` makes of the text `toml`.
pub uninterp spec fn guest_reading(toml: Seq<char>) -> GuestReading;

/// The outcome of reading one guest configuration: its facts, or the parser's
/// message.
pub type ConfigOutcome = Result<GuestFactsView, Seq<char>>;

/// The view of an exec reading outcome.
pub open spec fn config_outcome(config: Result<GuestFacts, String>) -> ConfigOutcome {
    match config {
        Ok(facts) => Ok(facts@),
        Err(message) => Err(message@),
    }
}

/// Whether reading the text `toml` may come out as `config`.
pub open spec fn may_read_as(toml: Seq<char>, config: ConfigOutcome) -> bool {
    match guest_reading(toml) {
        GuestReading::Refused => config is Err,
        GuestReading::Accepted(facts) => config == Ok::<GuestFactsView, Seq<char>>(facts),
        GuestReading::PerTarget(facts) => config is Ok ==> config->Ok_0 == facts,
    }
}

/// Reads a guest configuration with `axvmconfig::GuestConfig::from_toml`, and
/// keeps the fields the control plane looks at.
///
/// Not proved here, and taken from that parser: the facts depend on the text
/// alone; a text that every target accepts is accepted, one that none accepts
/// is refused. The wording of a refusal, and on which targets a text of the
/// third kind is accepted, is left open.
#[verifier::external_body]
pub(crate) fn read_config(toml: &str) -> (r: Result<GuestFacts, String>)
    ensures
        match guest_reading(toml@) {
            GuestReading::Refused => r is Err,
            GuestReading::Accepted(facts) => r is Ok && r->Ok_0@ == facts,
            GuestReading::PerTarget(facts) => r is Ok ==> r->Ok_0@ == facts,
        },
{
    match axvmconfig::GuestConfig::from_toml(toml) {
        Ok(config) => Ok(GuestFacts {
            id: config.base.id,
            name: config.base.name,
            image_location: config.kernel.image_location,
            kernel_path: config.kernel.kernel_path,
            ramdisk_path: config.kernel.ramdisk_path,
            dtb_path: config.kernel.dtb_path,
        }),
        Err(error) => Err(format!("{error}")),
    }
}

}

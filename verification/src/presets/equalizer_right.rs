//! The right channel of the equalizer, for either direction.

use crate::presets::equalizer_band::{
    apply_bands, bands_settings, bands_stored, lemma_bands_accepted, lemma_bands_read,
    lemma_bands_settings, lemma_bands_stay_stored, read_bands, Band, BANDS,
};
use crate::settings::{
    distinct, mark, placed, Address, Kind, Section, Setting, Settings, SettingsStore, StoreView,
};
use vstd::prelude::*;

verus! {

/// The right channel of the equalizer on the output chain.
#[derive(Clone, Debug)]
pub struct RightOutput {
    /// The bands, lowest first: `BANDS` of them in a well-formed record.
    pub bands: Vec<Band>,
}

impl RightOutput {
    /// Where the keys of this record live.
    pub open spec fn section() -> Section {
        Section {
            schema: "com.github.wwmm.pulseeffects.equalizer.channel"@,
            path: "/com/github/wwmm/pulseeffects/sinkinputs/equalizer/rightchannel/"@,
        }
    }

    /// Whether the record has as many bands as a channel.
    pub open spec fn wf(&self) -> bool {
        self.bands.len() == BANDS
    }

    /// The record as the settings it stands for, in the order in which they
    /// are written: band after band.
    pub open spec fn settings(&self) -> Seq<Setting> {
        bands_settings(self.bands@, Self::section(), self.bands.len() as nat)
    }

    /// The settings that `store` holds for this record, or `None` where a key
    /// is missing or of another type.
    pub open spec fn stored(store: StoreView) -> Option<Seq<Setting>> {
        bands_stored(store, Self::section(), BANDS as nat)
    }

    /// What a store holds for the record is what it holds at the keys of the
    /// record.
    pub proof fn lemma_stored(store: StoreView)
        requires
            Self::stored(store) is Some,
        ensures
            store.reads(Self::stored(store).unwrap()),
    {
        lemma_bands_read(store, Self::section(), BANDS as nat);
    }

    /// A store that holds the record accepts the settings of one with all its
    /// bands.
    pub proof fn lemma_accepted(&self, store: StoreView)
        requires
            self.wf(),
            Self::stored(store) is Some,
        ensures
            store.accepts(self.settings()),
    {
        lemma_bands_accepted(self.bands@, Self::section(), BANDS as nat, store);
    }

    /// The settings of a record with all its bands name keys of its section,
    /// no key twice.
    pub proof fn lemma_settings(&self)
        requires
            self.wf(),
        ensures
            distinct(self.settings()),
            placed(self.settings(), set![Self::section()]),
    {
        lemma_bands_settings(self.bands@, Self::section(), BANDS as nat);
    }

    /// The mark of the section of this record.
    pub proof fn lemma_mark()
        ensures
            mark(Self::section()) == (64nat, 'l', 'n', 'a'),
    {
        reveal_strlit("/com/github/wwmm/pulseeffects/sinkinputs/equalizer/rightchannel/");
    }

    /// A handle on the section where the keys of this record live.
    pub fn location() -> (r: Settings)
        ensures
            r@ == Self::section(),
    {
        Settings::with_path(
            "com.github.wwmm.pulseeffects.equalizer.channel",
            "/com/github/wwmm/pulseeffects/sinkinputs/equalizer/rightchannel/",
        )
    }

    /// A store that holds the same keys with the same types holds the record
    /// alike.
    pub proof fn lemma_stays_stored(before: StoreView, after: StoreView)
        requires
            forall|address: Address, kind: Kind| #[trigger]
                after.holds(address, kind) == before.holds(address, kind),
        ensures
            Self::stored(after) is Some == Self::stored(before) is Some,
    {
        lemma_bands_stay_stored(before, after, Self::section(), BANDS as nat);
    }

    /// Whether the record has as many bands as a channel.
    pub fn is_well_formed(&self) -> (r: bool)
        ensures
            r == self.wf(),
    {
        self.bands.len() == BANDS
    }

    /// Reads the record from `store`.
    pub fn read(store: &SettingsStore) -> (r: Option<RightOutput>)
        ensures
            match r {
                Some(record) => record.wf() && Self::stored(store@) == Some(record.settings()),
                None => Self::stored(store@) is None,
            },
    {
        let settings = Self::location();
        Some(RightOutput { bands: read_bands(store, &settings, BANDS)? })
    }

    /// Hands every field of every band to its key: a key is written only where
    /// its value would change.
    pub fn apply(&self, store: &mut SettingsStore)
        requires
            self.wf(),
            Self::stored(old(store)@) is Some,
        ensures
            final(store)@ == old(store)@.apply(self.settings()),
            forall|address: Address, kind: Kind| #[trigger]
                final(store)@.holds(address, kind) == old(store)@.holds(address, kind),
    {
        let settings = Self::location();
        apply_bands(&self.bands, store, &settings);
    }
}

/// The right channel of the equalizer on the input chain.
#[derive(Clone, Debug)]
pub struct RightInput {
    /// The bands, lowest first: `BANDS` of them in a well-formed record.
    pub bands: Vec<Band>,
}

impl RightInput {
    /// Where the keys of this record live.
    pub open spec fn section() -> Section {
        Section {
            schema: "com.github.wwmm.pulseeffects.equalizer.channel"@,
            path: "/com/github/wwmm/pulseeffects/sourceoutputs/equalizer/rightchannel/"@,
        }
    }

    /// Whether the record has as many bands as a channel.
    pub open spec fn wf(&self) -> bool {
        self.bands.len() == BANDS
    }

    /// The record as the settings it stands for, in the order in which they
    /// are written: band after band.
    pub open spec fn settings(&self) -> Seq<Setting> {
        bands_settings(self.bands@, Self::section(), self.bands.len() as nat)
    }

    /// The settings that `store` holds for this record, or `None` where a key
    /// is missing or of another type.
    pub open spec fn stored(store: StoreView) -> Option<Seq<Setting>> {
        bands_stored(store, Self::section(), BANDS as nat)
    }

    /// What a store holds for the record is what it holds at the keys of the
    /// record.
    pub proof fn lemma_stored(store: StoreView)
        requires
            Self::stored(store) is Some,
        ensures
            store.reads(Self::stored(store).unwrap()),
    {
        lemma_bands_read(store, Self::section(), BANDS as nat);
    }

    /// A store that holds the record accepts the settings of one with all its
    /// bands.
    pub proof fn lemma_accepted(&self, store: StoreView)
        requires
            self.wf(),
            Self::stored(store) is Some,
        ensures
            store.accepts(self.settings()),
    {
        lemma_bands_accepted(self.bands@, Self::section(), BANDS as nat, store);
    }

    /// The settings of a record with all its bands name keys of its section,
    /// no key twice.
    pub proof fn lemma_settings(&self)
        requires
            self.wf(),
        ensures
            distinct(self.settings()),
            placed(self.settings(), set![Self::section()]),
    {
        lemma_bands_settings(self.bands@, Self::section(), BANDS as nat);
    }

    /// The mark of the section of this record.
    pub proof fn lemma_mark()
        ensures
            mark(Self::section()) == (67nat, 'l', 'n', 'a'),
    {
        reveal_strlit("/com/github/wwmm/pulseeffects/sourceoutputs/equalizer/rightchannel/");
    }

    /// A handle on the section where the keys of this record live.
    pub fn location() -> (r: Settings)
        ensures
            r@ == Self::section(),
    {
        Settings::with_path(
            "com.github.wwmm.pulseeffects.equalizer.channel",
            "/com/github/wwmm/pulseeffects/sourceoutputs/equalizer/rightchannel/",
        )
    }

    /// A store that holds the same keys with the same types holds the record
    /// alike.
    pub proof fn lemma_stays_stored(before: StoreView, after: StoreView)
        requires
            forall|address: Address, kind: Kind| #[trigger]
                after.holds(address, kind) == before.holds(address, kind),
        ensures
            Self::stored(after) is Some == Self::stored(before) is Some,
    {
        lemma_bands_stay_stored(before, after, Self::section(), BANDS as nat);
    }

    /// Whether the record has as many bands as a channel.
    pub fn is_well_formed(&self) -> (r: bool)
        ensures
            r == self.wf(),
    {
        self.bands.len() == BANDS
    }

    /// Reads the record from `store`.
    pub fn read(store: &SettingsStore) -> (r: Option<RightInput>)
        ensures
            match r {
                Some(record) => record.wf() && Self::stored(store@) == Some(record.settings()),
                None => Self::stored(store@) is None,
            },
    {
        let settings = Self::location();
        Some(RightInput { bands: read_bands(store, &settings, BANDS)? })
    }

    /// Hands every field of every band to its key: a key is written only where
    /// its value would change.
    pub fn apply(&self, store: &mut SettingsStore)
        requires
            self.wf(),
            Self::stored(old(store)@) is Some,
        ensures
            final(store)@ == old(store)@.apply(self.settings()),
            forall|address: Address, kind: Kind| #[trigger]
                final(store)@.holds(address, kind) == old(store)@.holds(address, kind),
    {
        let settings = Self::location();
        apply_bands(&self.bands, store, &settings);
    }
}

} // verus!

//! The equalizer effect with its two channels, for either direction.

use crate::presets::common::{update_key, update_string_key};
use crate::presets::equalizer_left::{LeftInput, LeftOutput};
use crate::presets::equalizer_right::{RightInput, RightOutput};
use crate::settings::{
    distinct, lemma_distinct_concat, mark, placed, Address, Double, Kind, Section, Setting,
    Settings, SettingsStore, StoreView, Variant, VariantView,
};
use vstd::prelude::*;

verus! {

/// Parameters of the equalizer on the output chain.
#[derive(Clone, Debug)]
pub struct Output {
    pub state: bool,
    pub mode: String,
    pub num_bands: i32,
    pub input_gain: Double,
    pub output_gain: Double,
    pub split_channels: bool,
    pub left: LeftOutput,
    pub right: RightOutput,
}

impl Output {
    /// Where the keys of this record live, those of the two channels apart.
    pub open spec fn section() -> Section {
        Section {
            schema: "com.github.wwmm.pulseeffects.equalizer"@,
            path: "/com/github/wwmm/pulseeffects/sinkinputs/equalizer/"@,
        }
    }

    /// Whether the two channels have as many bands as a channel.
    pub open spec fn wf(&self) -> bool {
        self.left.wf() && self.right.wf()
    }

    /// The fields outside the channels as the settings they stand for.
    pub open spec fn own_settings(&self) -> Seq<Setting> {
        seq![
            Setting { address: Self::section().at("state"@), value: VariantView::Boolean(self.state) },
            Setting { address: Self::section().at("mode"@), value: VariantView::Text(self.mode@) },
            Setting {
                address: Self::section().at("num-bands"@),
                value: VariantView::Int32(self.num_bands),
            },
            Setting {
                address: Self::section().at("input-gain"@),
                value: VariantView::Double(self.input_gain.bits),
            },
            Setting {
                address: Self::section().at("output-gain"@),
                value: VariantView::Double(self.output_gain.bits),
            },
            Setting {
                address: Self::section().at("split-channels"@),
                value: VariantView::Boolean(self.split_channels),
            },
        ]
    }

    /// The record as the settings it stands for, in the order in which they
    /// are written: its own fields, the left channel, the right channel.
    pub open spec fn settings(&self) -> Seq<Setting> {
        self.own_settings() + self.left.settings() + self.right.settings()
    }

    /// The settings that `store` holds for this record, or `None` where a key
    /// is missing or of another type.
    pub open spec fn stored(store: StoreView) -> Option<Seq<Setting>> {
        if store.holds(Self::section().at("state"@), Kind::Boolean)
            && store.holds(Self::section().at("mode"@), Kind::Text)
            && store.holds(Self::section().at("num-bands"@), Kind::Int32)
            && store.holds(Self::section().at("input-gain"@), Kind::Double)
            && store.holds(Self::section().at("output-gain"@), Kind::Double)
            && store.holds(Self::section().at("split-channels"@), Kind::Boolean)
            && LeftOutput::stored(store) is Some
            && RightOutput::stored(store) is Some
        {
            Some(
                seq![
                    store.setting(Self::section().at("state"@)),
                    store.setting(Self::section().at("mode"@)),
                    store.setting(Self::section().at("num-bands"@)),
                    store.setting(Self::section().at("input-gain"@)),
                    store.setting(Self::section().at("output-gain"@)),
                    store.setting(Self::section().at("split-channels"@)),
                ] + LeftOutput::stored(store).unwrap() + RightOutput::stored(store).unwrap(),
            )
        } else {
            None
        }
    }

    /// What a store holds for the record is what it holds at the keys of the
    /// record.
    pub proof fn lemma_stored(store: StoreView)
        requires
            Self::stored(store) is Some,
        ensures
            store.reads(Self::stored(store).unwrap()),
    {
        let own = seq![
            store.setting(Self::section().at("state"@)),
            store.setting(Self::section().at("mode"@)),
            store.setting(Self::section().at("num-bands"@)),
            store.setting(Self::section().at("input-gain"@)),
            store.setting(Self::section().at("output-gain"@)),
            store.setting(Self::section().at("split-channels"@)),
        ];
        assert(store.reads(own));
        LeftOutput::lemma_stored(store);
        RightOutput::lemma_stored(store);
        store.lemma_reads_concat(own, LeftOutput::stored(store).unwrap());
        store.lemma_reads_concat(
            own + LeftOutput::stored(store).unwrap(),
            RightOutput::stored(store).unwrap(),
        );
    }

    /// A store that holds the record accepts the settings of one with all its
    /// bands.
    pub proof fn lemma_accepted(&self, store: StoreView)
        requires
            self.wf(),
            Self::stored(store) is Some,
        ensures
            store.accepts(self.settings()),
    {
        self.left.lemma_accepted(store);
        self.right.lemma_accepted(store);
        store.lemma_accepts_concat(self.own_settings(), self.left.settings());
        store.lemma_accepts_concat(
            self.own_settings() + self.left.settings(),
            self.right.settings(),
        );
    }

    /// The settings of a record with all its bands name keys of its section
    /// and of those of its channels, no key twice.
    pub proof fn lemma_settings(&self)
        requires
            self.wf(),
        ensures
            distinct(self.settings()),
            placed(
                self.settings(),
                set![Self::section(), LeftOutput::section(), RightOutput::section()],
            ),
    {
        reveal_strlit("state");
        reveal_strlit("mode");
        reveal_strlit("num-bands");
        reveal_strlit("input-gain");
        reveal_strlit("output-gain");
        reveal_strlit("split-channels");
        assert("state"@.len() == 5);
        assert("mode"@.len() == 4);
        assert("num-bands"@.len() == 9);
        assert("input-gain"@.len() == 10);
        assert("output-gain"@.len() == 11);
        assert("split-channels"@.len() == 14);
        Self::lemma_mark();
        LeftOutput::lemma_mark();
        RightOutput::lemma_mark();
        let own = self.own_settings();
        let own_in = set![Self::section()];
        let left_in = set![LeftOutput::section()];
        let right_in = set![RightOutput::section()];
        self.left.lemma_settings();
        self.right.lemma_settings();
        lemma_distinct_concat(own, self.left.settings(), own_in, left_in);
        lemma_distinct_concat(
            own + self.left.settings(),
            self.right.settings(),
            own_in.union(left_in),
            right_in,
        );
        assert(own_in.union(left_in).union(right_in) =~= set![
            Self::section(),
            LeftOutput::section(),
            RightOutput::section(),
        ]);
    }

    /// The mark of the section of this record.
    pub proof fn lemma_mark()
        ensures
            mark(Self::section()) == (51nat, 'r', 'z', 'l'),
    {
        reveal_strlit("/com/github/wwmm/pulseeffects/sinkinputs/equalizer/");
    }

    /// A handle on the section where the keys of this record live, those of
    /// the two channels apart.
    pub fn location() -> (r: Settings)
        ensures
            r@ == Self::section(),
    {
        Settings::with_path(
            "com.github.wwmm.pulseeffects.equalizer",
            "/com/github/wwmm/pulseeffects/sinkinputs/equalizer/",
        )
    }

    /// A store that holds the same keys with the same types holds the record
    /// alike.
    pub proof fn lemma_stays_stored(before: StoreView, after: StoreView)
        requires
            forall|address: Address, kind: Kind| #[trigger]
                after.holds(address, kind) == before.holds(address, kind),
        ensures
            Self::stored(after) is Some == Self::stored(before) is Some,
    {
        LeftOutput::lemma_stays_stored(before, after);
        RightOutput::lemma_stays_stored(before, after);
    }

    /// Whether the two channels have as many bands as a channel.
    pub fn is_well_formed(&self) -> (r: bool)
        ensures
            r == self.wf(),
    {
        self.left.is_well_formed() && self.right.is_well_formed()
    }

    /// Reads the record from `store`.
    pub fn read(store: &SettingsStore) -> (r: Option<Output>)
        ensures
            match r {
                Some(record) => record.wf() && Self::stored(store@) == Some(record.settings()),
                None => Self::stored(store@) is None,
            },
    {
        let settings = Self::location();
        let record = Output {
            state: settings.get_boolean(store, "state")?,
            mode: settings.get_string(store, "mode")?,
            num_bands: settings.get_int(store, "num-bands")?,
            input_gain: settings.get_double(store, "input-gain")?,
            output_gain: settings.get_double(store, "output-gain")?,
            split_channels: settings.get_boolean(store, "split-channels")?,
            left: LeftOutput::read(store)?,
            right: RightOutput::read(store)?,
        };
        assert(Self::stored(store@).unwrap() =~= record.settings());
        Some(record)
    }

    /// Handing these settings to a store is handing them over one after
    /// another.
    pub proof fn lemma_applied(&self, store: StoreView)
        ensures
            store.apply(self.own_settings()) == store.update(self.own_settings()[0]).update(
                self.own_settings()[1],
            ).update(self.own_settings()[2]).update(self.own_settings()[3]).update(
                self.own_settings()[4],
            ).update(self.own_settings()[5]),
    {
        store.lemma_apply_steps(self.own_settings());
    }

    /// Hands every field to its key, those of the two channels too: a key is
    /// written only where its value would change.
    pub fn apply(&self, store: &mut SettingsStore)
        requires
            self.wf(),
            Self::stored(old(store)@) is Some,
        ensures
            final(store)@ == old(store)@.apply(self.settings()),
            forall|address: Address, kind: Kind| #[trigger]
                final(store)@.holds(address, kind) == old(store)@.holds(address, kind),
    {
        let settings = Self::location();
        update_key(store, &settings, "state", Variant::Boolean(self.state));
        update_string_key(store, &settings, "mode", &self.mode);
        update_key(store, &settings, "num-bands", Variant::Int32(self.num_bands));
        update_key(store, &settings, "input-gain", Variant::Double(self.input_gain));
        update_key(store, &settings, "output-gain", Variant::Double(self.output_gain));
        update_key(store, &settings, "split-channels", Variant::Boolean(self.split_channels));
        proof {
            LeftOutput::lemma_stays_stored(old(store)@, store@);
        }
        self.left.apply(store);
        proof {
            RightOutput::lemma_stays_stored(old(store)@, store@);
        }
        self.right.apply(store);
        proof {
            self.lemma_applied(old(store)@);
            old(store)@.lemma_apply_concat(self.own_settings(), self.left.settings());
            old(store)@.lemma_apply_concat(
                self.own_settings() + self.left.settings(),
                self.right.settings(),
            );
        }
    }
}

/// Parameters of the equalizer on the input chain.
#[derive(Clone, Debug)]
pub struct Input {
    pub state: bool,
    pub mode: String,
    pub num_bands: i32,
    pub input_gain: Double,
    pub output_gain: Double,
    pub split_channels: bool,
    pub left: LeftInput,
    pub right: RightInput,
}

impl Input {
    /// Where the keys of this record live, those of the two channels apart.
    pub open spec fn section() -> Section {
        Section {
            schema: "com.github.wwmm.pulseeffects.equalizer"@,
            path: "/com/github/wwmm/pulseeffects/sourceoutputs/equalizer/"@,
        }
    }

    /// Whether the two channels have as many bands as a channel.
    pub open spec fn wf(&self) -> bool {
        self.left.wf() && self.right.wf()
    }

    /// The fields outside the channels as the settings they stand for.
    pub open spec fn own_settings(&self) -> Seq<Setting> {
        seq![
            Setting { address: Self::section().at("state"@), value: VariantView::Boolean(self.state) },
            Setting { address: Self::section().at("mode"@), value: VariantView::Text(self.mode@) },
            Setting {
                address: Self::section().at("num-bands"@),
                value: VariantView::Int32(self.num_bands),
            },
            Setting {
                address: Self::section().at("input-gain"@),
                value: VariantView::Double(self.input_gain.bits),
            },
            Setting {
                address: Self::section().at("output-gain"@),
                value: VariantView::Double(self.output_gain.bits),
            },
            Setting {
                address: Self::section().at("split-channels"@),
                value: VariantView::Boolean(self.split_channels),
            },
        ]
    }

    /// The record as the settings it stands for, in the order in which they
    /// are written: its own fields, the left channel, the right channel.
    pub open spec fn settings(&self) -> Seq<Setting> {
        self.own_settings() + self.left.settings() + self.right.settings()
    }

    /// The settings that `store` holds for this record, or `None` where a key
    /// is missing or of another type.
    pub open spec fn stored(store: StoreView) -> Option<Seq<Setting>> {
        if store.holds(Self::section().at("state"@), Kind::Boolean)
            && store.holds(Self::section().at("mode"@), Kind::Text)
            && store.holds(Self::section().at("num-bands"@), Kind::Int32)
            && store.holds(Self::section().at("input-gain"@), Kind::Double)
            && store.holds(Self::section().at("output-gain"@), Kind::Double)
            && store.holds(Self::section().at("split-channels"@), Kind::Boolean)
            && LeftInput::stored(store) is Some
            && RightInput::stored(store) is Some
        {
            Some(
                seq![
                    store.setting(Self::section().at("state"@)),
                    store.setting(Self::section().at("mode"@)),
                    store.setting(Self::section().at("num-bands"@)),
                    store.setting(Self::section().at("input-gain"@)),
                    store.setting(Self::section().at("output-gain"@)),
                    store.setting(Self::section().at("split-channels"@)),
                ] + LeftInput::stored(store).unwrap() + RightInput::stored(store).unwrap(),
            )
        } else {
            None
        }
    }

    /// What a store holds for the record is what it holds at the keys of the
    /// record.
    pub proof fn lemma_stored(store: StoreView)
        requires
            Self::stored(store) is Some,
        ensures
            store.reads(Self::stored(store).unwrap()),
    {
        let own = seq![
            store.setting(Self::section().at("state"@)),
            store.setting(Self::section().at("mode"@)),
            store.setting(Self::section().at("num-bands"@)),
            store.setting(Self::section().at("input-gain"@)),
            store.setting(Self::section().at("output-gain"@)),
            store.setting(Self::section().at("split-channels"@)),
        ];
        assert(store.reads(own));
        LeftInput::lemma_stored(store);
        RightInput::lemma_stored(store);
        store.lemma_reads_concat(own, LeftInput::stored(store).unwrap());
        store.lemma_reads_concat(
            own + LeftInput::stored(store).unwrap(),
            RightInput::stored(store).unwrap(),
        );
    }

    /// A store that holds the record accepts the settings of one with all its
    /// bands.
    pub proof fn lemma_accepted(&self, store: StoreView)
        requires
            self.wf(),
            Self::stored(store) is Some,
        ensures
            store.accepts(self.settings()),
    {
        self.left.lemma_accepted(store);
        self.right.lemma_accepted(store);
        store.lemma_accepts_concat(self.own_settings(), self.left.settings());
        store.lemma_accepts_concat(
            self.own_settings() + self.left.settings(),
            self.right.settings(),
        );
    }

    /// The settings of a record with all its bands name keys of its section
    /// and of those of its channels, no key twice.
    pub proof fn lemma_settings(&self)
        requires
            self.wf(),
        ensures
            distinct(self.settings()),
            placed(
                self.settings(),
                set![Self::section(), LeftInput::section(), RightInput::section()],
            ),
    {
        reveal_strlit("state");
        reveal_strlit("mode");
        reveal_strlit("num-bands");
        reveal_strlit("input-gain");
        reveal_strlit("output-gain");
        reveal_strlit("split-channels");
        assert("state"@.len() == 5);
        assert("mode"@.len() == 4);
        assert("num-bands"@.len() == 9);
        assert("input-gain"@.len() == 10);
        assert("output-gain"@.len() == 11);
        assert("split-channels"@.len() == 14);
        Self::lemma_mark();
        LeftInput::lemma_mark();
        RightInput::lemma_mark();
        let own = self.own_settings();
        let own_in = set![Self::section()];
        let left_in = set![LeftInput::section()];
        let right_in = set![RightInput::section()];
        self.left.lemma_settings();
        self.right.lemma_settings();
        lemma_distinct_concat(own, self.left.settings(), own_in, left_in);
        lemma_distinct_concat(
            own + self.left.settings(),
            self.right.settings(),
            own_in.union(left_in),
            right_in,
        );
        assert(own_in.union(left_in).union(right_in) =~= set![
            Self::section(),
            LeftInput::section(),
            RightInput::section(),
        ]);
    }

    /// The mark of the section of this record.
    pub proof fn lemma_mark()
        ensures
            mark(Self::section()) == (54nat, 'r', 'z', 'l'),
    {
        reveal_strlit("/com/github/wwmm/pulseeffects/sourceoutputs/equalizer/");
    }

    /// A handle on the section where the keys of this record live, those of
    /// the two channels apart.
    pub fn location() -> (r: Settings)
        ensures
            r@ == Self::section(),
    {
        Settings::with_path(
            "com.github.wwmm.pulseeffects.equalizer",
            "/com/github/wwmm/pulseeffects/sourceoutputs/equalizer/",
        )
    }

    /// A store that holds the same keys with the same types holds the record
    /// alike.
    pub proof fn lemma_stays_stored(before: StoreView, after: StoreView)
        requires
            forall|address: Address, kind: Kind| #[trigger]
                after.holds(address, kind) == before.holds(address, kind),
        ensures
            Self::stored(after) is Some == Self::stored(before) is Some,
    {
        LeftInput::lemma_stays_stored(before, after);
        RightInput::lemma_stays_stored(before, after);
    }

    /// Whether the two channels have as many bands as a channel.
    pub fn is_well_formed(&self) -> (r: bool)
        ensures
            r == self.wf(),
    {
        self.left.is_well_formed() && self.right.is_well_formed()
    }

    /// Reads the record from `store`.
    pub fn read(store: &SettingsStore) -> (r: Option<Input>)
        ensures
            match r {
                Some(record) => record.wf() && Self::stored(store@) == Some(record.settings()),
                None => Self::stored(store@) is None,
            },
    {
        let settings = Self::location();
        let record = Input {
            state: settings.get_boolean(store, "state")?,
            mode: settings.get_string(store, "mode")?,
            num_bands: settings.get_int(store, "num-bands")?,
            input_gain: settings.get_double(store, "input-gain")?,
            output_gain: settings.get_double(store, "output-gain")?,
            split_channels: settings.get_boolean(store, "split-channels")?,
            left: LeftInput::read(store)?,
            right: RightInput::read(store)?,
        };
        assert(Self::stored(store@).unwrap() =~= record.settings());
        Some(record)
    }

    /// Handing these settings to a store is handing them over one after
    /// another.
    pub proof fn lemma_applied(&self, store: StoreView)
        ensures
            store.apply(self.own_settings()) == store.update(self.own_settings()[0]).update(
                self.own_settings()[1],
            ).update(self.own_settings()[2]).update(self.own_settings()[3]).update(
                self.own_settings()[4],
            ).update(self.own_settings()[5]),
    {
        store.lemma_apply_steps(self.own_settings());
    }

    /// Hands every field to its key, those of the two channels too: a key is
    /// written only where its value would change.
    pub fn apply(&self, store: &mut SettingsStore)
        requires
            self.wf(),
            Self::stored(old(store)@) is Some,
        ensures
            final(store)@ == old(store)@.apply(self.settings()),
            forall|address: Address, kind: Kind| #[trigger]
                final(store)@.holds(address, kind) == old(store)@.holds(address, kind),
    {
        let settings = Self::location();
        update_key(store, &settings, "state", Variant::Boolean(self.state));
        update_string_key(store, &settings, "mode", &self.mode);
        update_key(store, &settings, "num-bands", Variant::Int32(self.num_bands));
        update_key(store, &settings, "input-gain", Variant::Double(self.input_gain));
        update_key(store, &settings, "output-gain", Variant::Double(self.output_gain));
        update_key(store, &settings, "split-channels", Variant::Boolean(self.split_channels));
        proof {
            LeftInput::lemma_stays_stored(old(store)@, store@);
        }
        self.left.apply(store);
        proof {
            RightInput::lemma_stays_stored(old(store)@, store@);
        }
        self.right.apply(store);
        proof {
            self.lemma_applied(old(store)@);
            old(store)@.lemma_apply_concat(self.own_settings(), self.left.settings());
            old(store)@.lemma_apply_concat(
                self.own_settings() + self.left.settings(),
                self.right.settings(),
            );
        }
    }
}

} // verus!

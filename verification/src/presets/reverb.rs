//! The reverb effect, for either direction.

use crate::presets::common::{update_key, update_string_key};
use crate::settings::{
    distinct, mark, placed, Address, Double, Kind, Section, Setting, Settings, SettingsStore,
    StoreView, Variant, VariantView,
};
use vstd::prelude::*;

verus! {

/// Parameters of the reverb on the output chain.
#[derive(Clone, Debug)]
pub struct Output {
    pub state: bool,
    pub input_gain: Double,
    pub output_gain: Double,
    pub room_size: String,
    pub decay_time: Double,
    pub hf_damp: Double,
    pub diffusion: Double,
    pub amount: Double,
    pub dry: Double,
    pub predelay: Double,
    pub bass_cut: Double,
    pub treble_cut: Double,
}

impl Output {
    /// Where the keys of this record live.
    pub open spec fn section() -> Section {
        Section {
            schema: "com.github.wwmm.pulseeffects.reverb"@,
            path: "/com/github/wwmm/pulseeffects/sinkinputs/reverb/"@,
        }
    }

    /// The record as the settings it stands for, in the order in which they
    /// are written.
    pub open spec fn settings(&self) -> Seq<Setting> {
        seq![
            Setting {
                address: Self::section().at("state"@),
                value: VariantView::Boolean(self.state),
            },
            Setting {
                address: Self::section().at("input-gain"@),
                value: VariantView::Double(self.input_gain.bits),
            },
            Setting {
                address: Self::section().at("output-gain"@),
                value: VariantView::Double(self.output_gain.bits),
            },
            Setting {
                address: Self::section().at("room-size"@),
                value: VariantView::Text(self.room_size@),
            },
            Setting {
                address: Self::section().at("decay-time"@),
                value: VariantView::Double(self.decay_time.bits),
            },
            Setting {
                address: Self::section().at("hf-damp"@),
                value: VariantView::Double(self.hf_damp.bits),
            },
            Setting {
                address: Self::section().at("diffusion"@),
                value: VariantView::Double(self.diffusion.bits),
            },
            Setting {
                address: Self::section().at("amount"@),
                value: VariantView::Double(self.amount.bits),
            },
            Setting {
                address: Self::section().at("dry"@),
                value: VariantView::Double(self.dry.bits),
            },
            Setting {
                address: Self::section().at("predelay"@),
                value: VariantView::Double(self.predelay.bits),
            },
            Setting {
                address: Self::section().at("bass-cut"@),
                value: VariantView::Double(self.bass_cut.bits),
            },
            Setting {
                address: Self::section().at("treble-cut"@),
                value: VariantView::Double(self.treble_cut.bits),
            },
        ]
    }

    /// The settings that `store` holds for this record, or `None` where a key
    /// is missing or of another type.
    pub open spec fn stored(store: StoreView) -> Option<Seq<Setting>> {
        if store.holds(Self::section().at("state"@), Kind::Boolean)
            && store.holds(Self::section().at("input-gain"@), Kind::Double)
            && store.holds(Self::section().at("output-gain"@), Kind::Double)
            && store.holds(Self::section().at("room-size"@), Kind::Text)
            && store.holds(Self::section().at("decay-time"@), Kind::Double)
            && store.holds(Self::section().at("hf-damp"@), Kind::Double)
            && store.holds(Self::section().at("diffusion"@), Kind::Double)
            && store.holds(Self::section().at("amount"@), Kind::Double)
            && store.holds(Self::section().at("dry"@), Kind::Double)
            && store.holds(Self::section().at("predelay"@), Kind::Double)
            && store.holds(Self::section().at("bass-cut"@), Kind::Double)
            && store.holds(Self::section().at("treble-cut"@), Kind::Double)
        {
            Some(
                seq![
                    store.setting(Self::section().at("state"@)),
                    store.setting(Self::section().at("input-gain"@)),
                    store.setting(Self::section().at("output-gain"@)),
                    store.setting(Self::section().at("room-size"@)),
                    store.setting(Self::section().at("decay-time"@)),
                    store.setting(Self::section().at("hf-damp"@)),
                    store.setting(Self::section().at("diffusion"@)),
                    store.setting(Self::section().at("amount"@)),
                    store.setting(Self::section().at("dry"@)),
                    store.setting(Self::section().at("predelay"@)),
                    store.setting(Self::section().at("bass-cut"@)),
                    store.setting(Self::section().at("treble-cut"@)),
                ],
            )
        } else {
            None
        }
    }

    /// The mark of the section of this record.
    pub proof fn lemma_mark()
        ensures
            mark(Self::section()) == (48nat, 'b', 'e', 'e'),
    {
        reveal_strlit("/com/github/wwmm/pulseeffects/sinkinputs/reverb/");
    }

    /// A handle on the section where the keys of this record live.
    pub fn location() -> (r: Settings)
        ensures
            r@ == Self::section(),
    {
        Settings::with_path(
            "com.github.wwmm.pulseeffects.reverb",
            "/com/github/wwmm/pulseeffects/sinkinputs/reverb/",
        )
    }

    /// What a store holds for the record is what it holds at the keys of the
    /// record.
    pub proof fn lemma_stored(store: StoreView)
        requires
            Self::stored(store) is Some,
        ensures
            store.reads(Self::stored(store).unwrap()),
    {
    }

    /// A store that holds the record accepts its settings.
    pub proof fn lemma_accepted(&self, store: StoreView)
        requires
            Self::stored(store) is Some,
        ensures
            store.accepts(self.settings()),
    {
    }

    /// The settings of the record name keys of its section, no key twice.
    pub proof fn lemma_settings(&self)
        ensures
            distinct(self.settings()),
            placed(self.settings(), set![Self::section()]),
    {
        reveal_strlit("state");
        reveal_strlit("input-gain");
        reveal_strlit("output-gain");
        reveal_strlit("room-size");
        reveal_strlit("decay-time");
        reveal_strlit("hf-damp");
        reveal_strlit("diffusion");
        reveal_strlit("amount");
        reveal_strlit("dry");
        reveal_strlit("predelay");
        reveal_strlit("bass-cut");
        reveal_strlit("treble-cut");
        assert("state"@.len() == 5);
        assert("input-gain"@.len() == 10 && "input-gain"@[0] == 'i');
        assert("output-gain"@.len() == 11);
        assert("room-size"@.len() == 9 && "room-size"@[0] == 'r');
        assert("decay-time"@.len() == 10 && "decay-time"@[0] == 'd');
        assert("hf-damp"@.len() == 7);
        assert("diffusion"@.len() == 9);
        assert("amount"@.len() == 6);
        assert("dry"@.len() == 3);
        assert("predelay"@.len() == 8 && "predelay"@[0] == 'p');
        assert("bass-cut"@.len() == 8);
        assert("treble-cut"@.len() == 10);
    }

    /// A store that holds the same keys with the same types holds the record
    /// alike.
    pub proof fn lemma_stays_stored(before: StoreView, after: StoreView)
        requires
            forall|address: Address, kind: Kind| #[trigger]
                after.holds(address, kind) == before.holds(address, kind),
        ensures
            Self::stored(after) is Some == Self::stored(before) is Some,
    {
    }

    /// Reads the record from `store`.
    pub fn read(store: &SettingsStore) -> (r: Option<Output>)
        ensures
            match r {
                Some(record) => Self::stored(store@) == Some(record.settings()),
                None => Self::stored(store@) is None,
            },
    {
        let settings = Self::location();
        let record = Output {
            state: settings.get_boolean(store, "state")?,
            input_gain: settings.get_double(store, "input-gain")?,
            output_gain: settings.get_double(store, "output-gain")?,
            room_size: settings.get_string(store, "room-size")?,
            decay_time: settings.get_double(store, "decay-time")?,
            hf_damp: settings.get_double(store, "hf-damp")?,
            diffusion: settings.get_double(store, "diffusion")?,
            amount: settings.get_double(store, "amount")?,
            dry: settings.get_double(store, "dry")?,
            predelay: settings.get_double(store, "predelay")?,
            bass_cut: settings.get_double(store, "bass-cut")?,
            treble_cut: settings.get_double(store, "treble-cut")?,
        };
        assert(Self::stored(store@).unwrap() =~= record.settings());
        Some(record)
    }

    /// Handing these settings to a store is handing them over one after
    /// another.
    pub proof fn lemma_applied(&self, store: StoreView)
        ensures
            store.apply(self.settings()) == store.update(self.settings()[0])
                .update(self.settings()[1]).update(self.settings()[2]).update(self.settings()[3])
                .update(self.settings()[4]).update(self.settings()[5]).update(self.settings()[6])
                .update(self.settings()[7]).update(self.settings()[8]).update(self.settings()[9])
                .update(self.settings()[10]).update(self.settings()[11]),
    {
        store.lemma_apply_steps(self.settings());
    }

    /// Hands every field to its key: a key is written only where its value
    /// would change.
    pub fn apply(&self, store: &mut SettingsStore)
        requires
            Self::stored(old(store)@) is Some,
        ensures
            final(store)@ == old(store)@.apply(self.settings()),
            forall|address: Address, kind: Kind| #[trigger]
                final(store)@.holds(address, kind) == old(store)@.holds(address, kind),
    {
        let settings = Self::location();
        update_key(store, &settings, "state", Variant::Boolean(self.state));
        update_key(store, &settings, "input-gain", Variant::Double(self.input_gain));
        update_key(store, &settings, "output-gain", Variant::Double(self.output_gain));
        update_string_key(store, &settings, "room-size", &self.room_size);
        update_key(store, &settings, "decay-time", Variant::Double(self.decay_time));
        update_key(store, &settings, "hf-damp", Variant::Double(self.hf_damp));
        update_key(store, &settings, "diffusion", Variant::Double(self.diffusion));
        update_key(store, &settings, "amount", Variant::Double(self.amount));
        update_key(store, &settings, "dry", Variant::Double(self.dry));
        update_key(store, &settings, "predelay", Variant::Double(self.predelay));
        update_key(store, &settings, "bass-cut", Variant::Double(self.bass_cut));
        update_key(store, &settings, "treble-cut", Variant::Double(self.treble_cut));
        proof {
            self.lemma_applied(old(store)@);
        }
    }
}

/// Parameters of the reverb on the input chain.
#[derive(Clone, Debug)]
pub struct Input {
    pub state: bool,
    pub input_gain: Double,
    pub output_gain: Double,
    pub room_size: String,
    pub decay_time: Double,
    pub hf_damp: Double,
    pub diffusion: Double,
    pub amount: Double,
    pub dry: Double,
    pub predelay: Double,
    pub bass_cut: Double,
    pub treble_cut: Double,
}

impl Input {
    /// Where the keys of this record live.
    pub open spec fn section() -> Section {
        Section {
            schema: "com.github.wwmm.pulseeffects.reverb"@,
            path: "/com/github/wwmm/pulseeffects/sourceoutputs/reverb/"@,
        }
    }

    /// The record as the settings it stands for, in the order in which they
    /// are written.
    pub open spec fn settings(&self) -> Seq<Setting> {
        seq![
            Setting {
                address: Self::section().at("state"@),
                value: VariantView::Boolean(self.state),
            },
            Setting {
                address: Self::section().at("input-gain"@),
                value: VariantView::Double(self.input_gain.bits),
            },
            Setting {
                address: Self::section().at("output-gain"@),
                value: VariantView::Double(self.output_gain.bits),
            },
            Setting {
                address: Self::section().at("room-size"@),
                value: VariantView::Text(self.room_size@),
            },
            Setting {
                address: Self::section().at("decay-time"@),
                value: VariantView::Double(self.decay_time.bits),
            },
            Setting {
                address: Self::section().at("hf-damp"@),
                value: VariantView::Double(self.hf_damp.bits),
            },
            Setting {
                address: Self::section().at("diffusion"@),
                value: VariantView::Double(self.diffusion.bits),
            },
            Setting {
                address: Self::section().at("amount"@),
                value: VariantView::Double(self.amount.bits),
            },
            Setting {
                address: Self::section().at("dry"@),
                value: VariantView::Double(self.dry.bits),
            },
            Setting {
                address: Self::section().at("predelay"@),
                value: VariantView::Double(self.predelay.bits),
            },
            Setting {
                address: Self::section().at("bass-cut"@),
                value: VariantView::Double(self.bass_cut.bits),
            },
            Setting {
                address: Self::section().at("treble-cut"@),
                value: VariantView::Double(self.treble_cut.bits),
            },
        ]
    }

    /// The settings that `store` holds for this record, or `None` where a key
    /// is missing or of another type.
    pub open spec fn stored(store: StoreView) -> Option<Seq<Setting>> {
        if store.holds(Self::section().at("state"@), Kind::Boolean)
            && store.holds(Self::section().at("input-gain"@), Kind::Double)
            && store.holds(Self::section().at("output-gain"@), Kind::Double)
            && store.holds(Self::section().at("room-size"@), Kind::Text)
            && store.holds(Self::section().at("decay-time"@), Kind::Double)
            && store.holds(Self::section().at("hf-damp"@), Kind::Double)
            && store.holds(Self::section().at("diffusion"@), Kind::Double)
            && store.holds(Self::section().at("amount"@), Kind::Double)
            && store.holds(Self::section().at("dry"@), Kind::Double)
            && store.holds(Self::section().at("predelay"@), Kind::Double)
            && store.holds(Self::section().at("bass-cut"@), Kind::Double)
            && store.holds(Self::section().at("treble-cut"@), Kind::Double)
        {
            Some(
                seq![
                    store.setting(Self::section().at("state"@)),
                    store.setting(Self::section().at("input-gain"@)),
                    store.setting(Self::section().at("output-gain"@)),
                    store.setting(Self::section().at("room-size"@)),
                    store.setting(Self::section().at("decay-time"@)),
                    store.setting(Self::section().at("hf-damp"@)),
                    store.setting(Self::section().at("diffusion"@)),
                    store.setting(Self::section().at("amount"@)),
                    store.setting(Self::section().at("dry"@)),
                    store.setting(Self::section().at("predelay"@)),
                    store.setting(Self::section().at("bass-cut"@)),
                    store.setting(Self::section().at("treble-cut"@)),
                ],
            )
        } else {
            None
        }
    }

    /// The mark of the section of this record.
    pub proof fn lemma_mark()
        ensures
            mark(Self::section()) == (51nat, 'b', 'e', 'e'),
    {
        reveal_strlit("/com/github/wwmm/pulseeffects/sourceoutputs/reverb/");
    }

    /// A handle on the section where the keys of this record live.
    pub fn location() -> (r: Settings)
        ensures
            r@ == Self::section(),
    {
        Settings::with_path(
            "com.github.wwmm.pulseeffects.reverb",
            "/com/github/wwmm/pulseeffects/sourceoutputs/reverb/",
        )
    }

    /// What a store holds for the record is what it holds at the keys of the
    /// record.
    pub proof fn lemma_stored(store: StoreView)
        requires
            Self::stored(store) is Some,
        ensures
            store.reads(Self::stored(store).unwrap()),
    {
    }

    /// A store that holds the record accepts its settings.
    pub proof fn lemma_accepted(&self, store: StoreView)
        requires
            Self::stored(store) is Some,
        ensures
            store.accepts(self.settings()),
    {
    }

    /// The settings of the record name keys of its section, no key twice.
    pub proof fn lemma_settings(&self)
        ensures
            distinct(self.settings()),
            placed(self.settings(), set![Self::section()]),
    {
        reveal_strlit("state");
        reveal_strlit("input-gain");
        reveal_strlit("output-gain");
        reveal_strlit("room-size");
        reveal_strlit("decay-time");
        reveal_strlit("hf-damp");
        reveal_strlit("diffusion");
        reveal_strlit("amount");
        reveal_strlit("dry");
        reveal_strlit("predelay");
        reveal_strlit("bass-cut");
        reveal_strlit("treble-cut");
        assert("state"@.len() == 5);
        assert("input-gain"@.len() == 10 && "input-gain"@[0] == 'i');
        assert("output-gain"@.len() == 11);
        assert("room-size"@.len() == 9 && "room-size"@[0] == 'r');
        assert("decay-time"@.len() == 10 && "decay-time"@[0] == 'd');
        assert("hf-damp"@.len() == 7);
        assert("diffusion"@.len() == 9);
        assert("amount"@.len() == 6);
        assert("dry"@.len() == 3);
        assert("predelay"@.len() == 8 && "predelay"@[0] == 'p');
        assert("bass-cut"@.len() == 8);
        assert("treble-cut"@.len() == 10);
    }

    /// A store that holds the same keys with the same types holds the record
    /// alike.
    pub proof fn lemma_stays_stored(before: StoreView, after: StoreView)
        requires
            forall|address: Address, kind: Kind| #[trigger]
                after.holds(address, kind) == before.holds(address, kind),
        ensures
            Self::stored(after) is Some == Self::stored(before) is Some,
    {
    }

    /// Reads the record from `store`.
    pub fn read(store: &SettingsStore) -> (r: Option<Input>)
        ensures
            match r {
                Some(record) => Self::stored(store@) == Some(record.settings()),
                None => Self::stored(store@) is None,
            },
    {
        let settings = Self::location();
        let record = Input {
            state: settings.get_boolean(store, "state")?,
            input_gain: settings.get_double(store, "input-gain")?,
            output_gain: settings.get_double(store, "output-gain")?,
            room_size: settings.get_string(store, "room-size")?,
            decay_time: settings.get_double(store, "decay-time")?,
            hf_damp: settings.get_double(store, "hf-damp")?,
            diffusion: settings.get_double(store, "diffusion")?,
            amount: settings.get_double(store, "amount")?,
            dry: settings.get_double(store, "dry")?,
            predelay: settings.get_double(store, "predelay")?,
            bass_cut: settings.get_double(store, "bass-cut")?,
            treble_cut: settings.get_double(store, "treble-cut")?,
        };
        assert(Self::stored(store@).unwrap() =~= record.settings());
        Some(record)
    }

    /// Handing these settings to a store is handing them over one after
    /// another.
    pub proof fn lemma_applied(&self, store: StoreView)
        ensures
            store.apply(self.settings()) == store.update(self.settings()[0])
                .update(self.settings()[1]).update(self.settings()[2]).update(self.settings()[3])
                .update(self.settings()[4]).update(self.settings()[5]).update(self.settings()[6])
                .update(self.settings()[7]).update(self.settings()[8]).update(self.settings()[9])
                .update(self.settings()[10]).update(self.settings()[11]),
    {
        store.lemma_apply_steps(self.settings());
    }

    /// Hands every field to its key: a key is written only where its value
    /// would change.
    pub fn apply(&self, store: &mut SettingsStore)
        requires
            Self::stored(old(store)@) is Some,
        ensures
            final(store)@ == old(store)@.apply(self.settings()),
            forall|address: Address, kind: Kind| #[trigger]
                final(store)@.holds(address, kind) == old(store)@.holds(address, kind),
    {
        let settings = Self::location();
        update_key(store, &settings, "state", Variant::Boolean(self.state));
        update_key(store, &settings, "input-gain", Variant::Double(self.input_gain));
        update_key(store, &settings, "output-gain", Variant::Double(self.output_gain));
        update_string_key(store, &settings, "room-size", &self.room_size);
        update_key(store, &settings, "decay-time", Variant::Double(self.decay_time));
        update_key(store, &settings, "hf-damp", Variant::Double(self.hf_damp));
        update_key(store, &settings, "diffusion", Variant::Double(self.diffusion));
        update_key(store, &settings, "amount", Variant::Double(self.amount));
        update_key(store, &settings, "dry", Variant::Double(self.dry));
        update_key(store, &settings, "predelay", Variant::Double(self.predelay));
        update_key(store, &settings, "bass-cut", Variant::Double(self.bass_cut));
        update_key(store, &settings, "treble-cut", Variant::Double(self.treble_cut));
        proof {
            self.lemma_applied(old(store)@);
        }
    }
}

} // verus!

//! The auto gain effect.

use crate::presets::common::update_key;
use crate::settings::{
    distinct, mark, placed, Address, Double, Kind, Section, Setting, Settings, SettingsStore,
    StoreView, Variant, VariantView,
};
use vstd::prelude::*;

verus! {

/// Parameters of the auto gain effect.
#[derive(Clone, Debug)]
pub struct AutoGain {
    pub state: bool,
    pub detect_silence: bool,
    pub use_geometric_mean: bool,
    pub input_gain: Double,
    pub output_gain: Double,
    pub target: Double,
    pub weight_m: i32,
    pub weight_s: i32,
    pub weight_i: i32,
}

impl AutoGain {
    /// Where the keys of this record live.
    pub open spec fn section() -> Section {
        Section {
            schema: "com.github.wwmm.pulseeffects.autogain"@,
            path: "/com/github/wwmm/pulseeffects/sinkinputs/autogain/"@,
        }
    }

    /// The record as the settings it stands for, in the order in which they
    /// are written.
    pub open spec fn settings(&self) -> Seq<Setting> {
        seq![
            Setting {
                address: Self::section().at("state"@),
                value: VariantView::Boolean(self.state),
            },
            Setting {
                address: Self::section().at("detect-silence"@),
                value: VariantView::Boolean(self.detect_silence),
            },
            Setting {
                address: Self::section().at("use-geometric-mean"@),
                value: VariantView::Boolean(self.use_geometric_mean),
            },
            Setting {
                address: Self::section().at("input-gain"@),
                value: VariantView::Double(self.input_gain.bits),
            },
            Setting {
                address: Self::section().at("output-gain"@),
                value: VariantView::Double(self.output_gain.bits),
            },
            Setting {
                address: Self::section().at("target"@),
                value: VariantView::Double(self.target.bits),
            },
            Setting {
                address: Self::section().at("weight-m"@),
                value: VariantView::Int32(self.weight_m),
            },
            Setting {
                address: Self::section().at("weight-s"@),
                value: VariantView::Int32(self.weight_s),
            },
            Setting {
                address: Self::section().at("weight-i"@),
                value: VariantView::Int32(self.weight_i),
            },
        ]
    }

    /// The settings that `store` holds for this record, or `None` where a key
    /// is missing or of another type.
    pub open spec fn stored(store: StoreView) -> Option<Seq<Setting>> {
        if store.holds(Self::section().at("state"@), Kind::Boolean)
            && store.holds(Self::section().at("detect-silence"@), Kind::Boolean)
            && store.holds(Self::section().at("use-geometric-mean"@), Kind::Boolean)
            && store.holds(Self::section().at("input-gain"@), Kind::Double)
            && store.holds(Self::section().at("output-gain"@), Kind::Double)
            && store.holds(Self::section().at("target"@), Kind::Double)
            && store.holds(Self::section().at("weight-m"@), Kind::Int32)
            && store.holds(Self::section().at("weight-s"@), Kind::Int32)
            && store.holds(Self::section().at("weight-i"@), Kind::Int32)
        {
            Some(
                seq![
                    store.setting(Self::section().at("state"@)),
                    store.setting(Self::section().at("detect-silence"@)),
                    store.setting(Self::section().at("use-geometric-mean"@)),
                    store.setting(Self::section().at("input-gain"@)),
                    store.setting(Self::section().at("output-gain"@)),
                    store.setting(Self::section().at("target"@)),
                    store.setting(Self::section().at("weight-m"@)),
                    store.setting(Self::section().at("weight-s"@)),
                    store.setting(Self::section().at("weight-i"@)),
                ],
            )
        } else {
            None
        }
    }

    /// The mark of the section of this record.
    pub proof fn lemma_mark()
        ensures
            mark(Self::section()) == (50nat, 'n', 'a', 'o'),
    {
        reveal_strlit("/com/github/wwmm/pulseeffects/sinkinputs/autogain/");
    }

    /// A handle on the section where the keys of this record live.
    pub fn location() -> (r: Settings)
        ensures
            r@ == Self::section(),
    {
        Settings::with_path(
            "com.github.wwmm.pulseeffects.autogain",
            "/com/github/wwmm/pulseeffects/sinkinputs/autogain/",
        )
    }

    /// What a store holds for the record is what it holds at the keys of the
    /// record.
    pub proof fn lemma_stored(store: StoreView)
        requires
            Self::stored(store) is Some,
        ensures
            store.reads(Self::stored(store).unwrap()),
    {
    }

    /// A store that holds the record accepts its settings.
    pub proof fn lemma_accepted(&self, store: StoreView)
        requires
            Self::stored(store) is Some,
        ensures
            store.accepts(self.settings()),
    {
    }

    /// The settings of the record name keys of its section, no key twice.
    pub proof fn lemma_settings(&self)
        ensures
            distinct(self.settings()),
            placed(self.settings(), set![Self::section()]),
    {
        reveal_strlit("state");
        reveal_strlit("detect-silence");
        reveal_strlit("use-geometric-mean");
        reveal_strlit("input-gain");
        reveal_strlit("output-gain");
        reveal_strlit("target");
        reveal_strlit("weight-m");
        reveal_strlit("weight-s");
        reveal_strlit("weight-i");
        assert("state"@.len() == 5);
        assert("detect-silence"@.len() == 14);
        assert("use-geometric-mean"@.len() == 18);
        assert("input-gain"@.len() == 10);
        assert("output-gain"@.len() == 11);
        assert("target"@.len() == 6);
        assert("weight-m"@.len() == 8 && "weight-m"@[7] == 'm');
        assert("weight-s"@.len() == 8 && "weight-s"@[7] == 's');
        assert("weight-i"@.len() == 8);
    }

    /// A store that holds the same keys with the same types holds the record
    /// alike.
    pub proof fn lemma_stays_stored(before: StoreView, after: StoreView)
        requires
            forall|address: Address, kind: Kind| #[trigger]
                after.holds(address, kind) == before.holds(address, kind),
        ensures
            Self::stored(after) is Some == Self::stored(before) is Some,
    {
    }

    /// Reads the record from `store`.
    pub fn read(store: &SettingsStore) -> (r: Option<AutoGain>)
        ensures
            match r {
                Some(record) => Self::stored(store@) == Some(record.settings()),
                None => Self::stored(store@) is None,
            },
    {
        let settings = Self::location();
        let record = AutoGain {
            state: settings.get_boolean(store, "state")?,
            detect_silence: settings.get_boolean(store, "detect-silence")?,
            use_geometric_mean: settings.get_boolean(store, "use-geometric-mean")?,
            input_gain: settings.get_double(store, "input-gain")?,
            output_gain: settings.get_double(store, "output-gain")?,
            target: settings.get_double(store, "target")?,
            weight_m: settings.get_int(store, "weight-m")?,
            weight_s: settings.get_int(store, "weight-s")?,
            weight_i: settings.get_int(store, "weight-i")?,
        };
        assert(Self::stored(store@).unwrap() =~= record.settings());
        Some(record)
    }

    /// Handing these settings to a store is handing them over one after
    /// another.
    pub proof fn lemma_applied(&self, store: StoreView)
        ensures
            store.apply(self.settings()) == store.update(self.settings()[0])
                .update(self.settings()[1]).update(self.settings()[2]).update(self.settings()[3])
                .update(self.settings()[4]).update(self.settings()[5]).update(self.settings()[6])
                .update(self.settings()[7]).update(self.settings()[8]),
    {
        store.lemma_apply_steps(self.settings());
    }

    /// Hands every field to its key: a key is written only where its value
    /// would change.
    pub fn apply(&self, store: &mut SettingsStore)
        requires
            Self::stored(old(store)@) is Some,
        ensures
            final(store)@ == old(store)@.apply(self.settings()),
            forall|address: Address, kind: Kind| #[trigger]
                final(store)@.holds(address, kind) == old(store)@.holds(address, kind),
    {
        let settings = Self::location();
        update_key(store, &settings, "state", Variant::Boolean(self.state));
        update_key(store, &settings, "detect-silence", Variant::Boolean(self.detect_silence));
        update_key(
            store,
            &settings,
            "use-geometric-mean",
            Variant::Boolean(self.use_geometric_mean),
        );
        update_key(store, &settings, "input-gain", Variant::Double(self.input_gain));
        update_key(store, &settings, "output-gain", Variant::Double(self.output_gain));
        update_key(store, &settings, "target", Variant::Double(self.target));
        update_key(store, &settings, "weight-m", Variant::Int32(self.weight_m));
        update_key(store, &settings, "weight-s", Variant::Int32(self.weight_s));
        update_key(store, &settings, "weight-i", Variant::Int32(self.weight_i));
        proof {
            self.lemma_applied(old(store)@);
        }
    }
}

} // verus!

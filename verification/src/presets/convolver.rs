//! The convolver effect.

use crate::presets::common::{update_key, update_string_key};
use crate::settings::{
    distinct, mark, placed, Address, Double, Kind, Section, Setting, Settings, SettingsStore,
    StoreView, Variant, VariantView,
};
use vstd::prelude::*;

verus! {

/// Parameters of the convolver.
#[derive(Clone, Debug)]
pub struct Convolver {
    pub state: bool,
    pub input_gain: Double,
    pub output_gain: Double,
    pub kernel_path: String,
    pub ir_width: i32,
}

impl Convolver {
    /// Where the keys of this record live.
    pub open spec fn section() -> Section {
        Section {
            schema: "com.github.wwmm.pulseeffects.convolver"@,
            path: "/com/github/wwmm/pulseeffects/sinkinputs/convolver/"@,
        }
    }

    /// The record as the settings it stands for, in the order in which they
    /// are written.
    pub open spec fn settings(&self) -> Seq<Setting> {
        seq![
            Setting {
                address: Self::section().at("state"@),
                value: VariantView::Boolean(self.state),
            },
            Setting {
                address: Self::section().at("input-gain"@),
                value: VariantView::Double(self.input_gain.bits),
            },
            Setting {
                address: Self::section().at("output-gain"@),
                value: VariantView::Double(self.output_gain.bits),
            },
            Setting {
                address: Self::section().at("kernel-path"@),
                value: VariantView::Text(self.kernel_path@),
            },
            Setting {
                address: Self::section().at("ir-width"@),
                value: VariantView::Int32(self.ir_width),
            },
        ]
    }

    /// The settings that `store` holds for this record, or `None` where a key
    /// is missing or of another type.
    pub open spec fn stored(store: StoreView) -> Option<Seq<Setting>> {
        if store.holds(Self::section().at("state"@), Kind::Boolean)
            && store.holds(Self::section().at("input-gain"@), Kind::Double)
            && store.holds(Self::section().at("output-gain"@), Kind::Double)
            && store.holds(Self::section().at("kernel-path"@), Kind::Text)
            && store.holds(Self::section().at("ir-width"@), Kind::Int32)
        {
            Some(
                seq![
                    store.setting(Self::section().at("state"@)),
                    store.setting(Self::section().at("input-gain"@)),
                    store.setting(Self::section().at("output-gain"@)),
                    store.setting(Self::section().at("kernel-path"@)),
                    store.setting(Self::section().at("ir-width"@)),
                ],
            )
        } else {
            None
        }
    }

    /// The mark of the section of this record.
    pub proof fn lemma_mark()
        ensures
            mark(Self::section()) == (51nat, 'r', 'v', 'o'),
    {
        reveal_strlit("/com/github/wwmm/pulseeffects/sinkinputs/convolver/");
    }

    /// A handle on the section where the keys of this record live.
    pub fn location() -> (r: Settings)
        ensures
            r@ == Self::section(),
    {
        Settings::with_path(
            "com.github.wwmm.pulseeffects.convolver",
            "/com/github/wwmm/pulseeffects/sinkinputs/convolver/",
        )
    }

    /// What a store holds for the record is what it holds at the keys of the
    /// record.
    pub proof fn lemma_stored(store: StoreView)
        requires
            Self::stored(store) is Some,
        ensures
            store.reads(Self::stored(store).unwrap()),
    {
    }

    /// A store that holds the record accepts its settings.
    pub proof fn lemma_accepted(&self, store: StoreView)
        requires
            Self::stored(store) is Some,
        ensures
            store.accepts(self.settings()),
    {
    }

    /// The settings of the record name keys of its section, no key twice.
    pub proof fn lemma_settings(&self)
        ensures
            distinct(self.settings()),
            placed(self.settings(), set![Self::section()]),
    {
        reveal_strlit("state");
        reveal_strlit("input-gain");
        reveal_strlit("output-gain");
        reveal_strlit("kernel-path");
        reveal_strlit("ir-width");
        assert("state"@.len() == 5);
        assert("input-gain"@.len() == 10);
        assert("output-gain"@.len() == 11 && "output-gain"@[0] == 'o');
        assert("kernel-path"@.len() == 11);
        assert("ir-width"@.len() == 8);
    }

    /// A store that holds the same keys with the same types holds the record
    /// alike.
    pub proof fn lemma_stays_stored(before: StoreView, after: StoreView)
        requires
            forall|address: Address, kind: Kind| #[trigger]
                after.holds(address, kind) == before.holds(address, kind),
        ensures
            Self::stored(after) is Some == Self::stored(before) is Some,
    {
    }

    /// Reads the record from `store`.
    pub fn read(store: &SettingsStore) -> (r: Option<Convolver>)
        ensures
            match r {
                Some(record) => Self::stored(store@) == Some(record.settings()),
                None => Self::stored(store@) is None,
            },
    {
        let settings = Self::location();
        let record = Convolver {
            state: settings.get_boolean(store, "state")?,
            input_gain: settings.get_double(store, "input-gain")?,
            output_gain: settings.get_double(store, "output-gain")?,
            kernel_path: settings.get_string(store, "kernel-path")?,
            ir_width: settings.get_int(store, "ir-width")?,
        };
        assert(Self::stored(store@).unwrap() =~= record.settings());
        Some(record)
    }

    /// Handing these settings to a store is handing them over one after
    /// another.
    pub proof fn lemma_applied(&self, store: StoreView)
        ensures
            store.apply(self.settings()) == store.update(self.settings()[0])
                .update(self.settings()[1]).update(self.settings()[2]).update(self.settings()[3])
                .update(self.settings()[4]),
    {
        store.lemma_apply_steps(self.settings());
    }

    /// Hands every field to its key: a key is written only where its value
    /// would change.
    pub fn apply(&self, store: &mut SettingsStore)
        requires
            Self::stored(old(store)@) is Some,
        ensures
            final(store)@ == old(store)@.apply(self.settings()),
            forall|address: Address, kind: Kind| #[trigger]
                final(store)@.holds(address, kind) == old(store)@.holds(address, kind),
    {
        let settings = Self::location();
        update_key(store, &settings, "state", Variant::Boolean(self.state));
        update_key(store, &settings, "input-gain", Variant::Double(self.input_gain));
        update_key(store, &settings, "output-gain", Variant::Double(self.output_gain));
        update_string_key(store, &settings, "kernel-path", &self.kernel_path);
        update_key(store, &settings, "ir-width", Variant::Int32(self.ir_width));
        proof {
            self.lemma_applied(old(store)@);
        }
    }
}

} // verus!

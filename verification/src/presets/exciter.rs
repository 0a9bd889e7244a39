//! The exciter effect.

use crate::presets::common::update_key;
use crate::settings::{
    distinct, mark, placed, Address, Double, Kind, Section, Setting, Settings, SettingsStore,
    StoreView, Variant, VariantView,
};
use vstd::prelude::*;

verus! {

/// Parameters of the exciter.
#[derive(Clone, Debug)]
pub struct Exciter {
    pub state: bool,
    pub input_gain: Double,
    pub output_gain: Double,
    pub amount: Double,
    pub harmonics: Double,
    pub scope: Double,
    pub ceil: Double,
    pub blend: Double,
    pub ceil_active: bool,
    pub listen: bool,
}

impl Exciter {
    /// Where the keys of this record live.
    pub open spec fn section() -> Section {
        Section {
            schema: "com.github.wwmm.pulseeffects.exciter"@,
            path: "/com/github/wwmm/pulseeffects/sinkinputs/exciter/"@,
        }
    }

    /// The record as the settings it stands for, in the order in which they
    /// are written.
    pub open spec fn settings(&self) -> Seq<Setting> {
        seq![
            Setting {
                address: Self::section().at("state"@),
                value: VariantView::Boolean(self.state),
            },
            Setting {
                address: Self::section().at("input-gain"@),
                value: VariantView::Double(self.input_gain.bits),
            },
            Setting {
                address: Self::section().at("output-gain"@),
                value: VariantView::Double(self.output_gain.bits),
            },
            Setting {
                address: Self::section().at("amount"@),
                value: VariantView::Double(self.amount.bits),
            },
            Setting {
                address: Self::section().at("harmonics"@),
                value: VariantView::Double(self.harmonics.bits),
            },
            Setting {
                address: Self::section().at("scope"@),
                value: VariantView::Double(self.scope.bits),
            },
            Setting {
                address: Self::section().at("ceil"@),
                value: VariantView::Double(self.ceil.bits),
            },
            Setting {
                address: Self::section().at("blend"@),
                value: VariantView::Double(self.blend.bits),
            },
            Setting {
                address: Self::section().at("ceil-active"@),
                value: VariantView::Boolean(self.ceil_active),
            },
            Setting {
                address: Self::section().at("listen"@),
                value: VariantView::Boolean(self.listen),
            },
        ]
    }

    /// The settings that `store` holds for this record, or `None` where a key
    /// is missing or of another type.
    pub open spec fn stored(store: StoreView) -> Option<Seq<Setting>> {
        if store.holds(Self::section().at("state"@), Kind::Boolean)
            && store.holds(Self::section().at("input-gain"@), Kind::Double)
            && store.holds(Self::section().at("output-gain"@), Kind::Double)
            && store.holds(Self::section().at("amount"@), Kind::Double)
            && store.holds(Self::section().at("harmonics"@), Kind::Double)
            && store.holds(Self::section().at("scope"@), Kind::Double)
            && store.holds(Self::section().at("ceil"@), Kind::Double)
            && store.holds(Self::section().at("blend"@), Kind::Double)
            && store.holds(Self::section().at("ceil-active"@), Kind::Boolean)
            && store.holds(Self::section().at("listen"@), Kind::Boolean)
        {
            Some(
                seq![
                    store.setting(Self::section().at("state"@)),
                    store.setting(Self::section().at("input-gain"@)),
                    store.setting(Self::section().at("output-gain"@)),
                    store.setting(Self::section().at("amount"@)),
                    store.setting(Self::section().at("harmonics"@)),
                    store.setting(Self::section().at("scope"@)),
                    store.setting(Self::section().at("ceil"@)),
                    store.setting(Self::section().at("blend"@)),
                    store.setting(Self::section().at("ceil-active"@)),
                    store.setting(Self::section().at("listen"@)),
                ],
            )
        } else {
            None
        }
    }

    /// The mark of the section of this record.
    pub proof fn lemma_mark()
        ensures
            mark(Self::section()) == (49nat, 'r', 't', 'c'),
    {
        reveal_strlit("/com/github/wwmm/pulseeffects/sinkinputs/exciter/");
    }

    /// A handle on the section where the keys of this record live.
    pub fn location() -> (r: Settings)
        ensures
            r@ == Self::section(),
    {
        Settings::with_path(
            "com.github.wwmm.pulseeffects.exciter",
            "/com/github/wwmm/pulseeffects/sinkinputs/exciter/",
        )
    }

    /// What a store holds for the record is what it holds at the keys of the
    /// record.
    pub proof fn lemma_stored(store: StoreView)
        requires
            Self::stored(store) is Some,
        ensures
            store.reads(Self::stored(store).unwrap()),
    {
    }

    /// A store that holds the record accepts its settings.
    pub proof fn lemma_accepted(&self, store: StoreView)
        requires
            Self::stored(store) is Some,
        ensures
            store.accepts(self.settings()),
    {
    }

    /// The settings of the record name keys of its section, no key twice.
    pub proof fn lemma_settings(&self)
        ensures
            distinct(self.settings()),
            placed(self.settings(), set![Self::section()]),
    {
        reveal_strlit("state");
        reveal_strlit("input-gain");
        reveal_strlit("output-gain");
        reveal_strlit("amount");
        reveal_strlit("harmonics");
        reveal_strlit("scope");
        reveal_strlit("ceil");
        reveal_strlit("blend");
        reveal_strlit("ceil-active");
        reveal_strlit("listen");
        assert("state"@.len() == 5 && "state"@[1] == 't');
        assert("input-gain"@.len() == 10);
        assert("output-gain"@.len() == 11 && "output-gain"@[0] == 'o');
        assert("amount"@.len() == 6 && "amount"@[0] == 'a');
        assert("harmonics"@.len() == 9);
        assert("scope"@.len() == 5 && "scope"@[0] == 's');
        assert("ceil"@.len() == 4);
        assert("blend"@.len() == 5);
        assert("ceil-active"@.len() == 11);
        assert("listen"@.len() == 6);
    }

    /// A store that holds the same keys with the same types holds the record
    /// alike.
    pub proof fn lemma_stays_stored(before: StoreView, after: StoreView)
        requires
            forall|address: Address, kind: Kind| #[trigger]
                after.holds(address, kind) == before.holds(address, kind),
        ensures
            Self::stored(after) is Some == Self::stored(before) is Some,
    {
    }

    /// Reads the record from `store`.
    pub fn read(store: &SettingsStore) -> (r: Option<Exciter>)
        ensures
            match r {
                Some(record) => Self::stored(store@) == Some(record.settings()),
                None => Self::stored(store@) is None,
            },
    {
        let settings = Self::location();
        let record = Exciter {
            state: settings.get_boolean(store, "state")?,
            input_gain: settings.get_double(store, "input-gain")?,
            output_gain: settings.get_double(store, "output-gain")?,
            amount: settings.get_double(store, "amount")?,
            harmonics: settings.get_double(store, "harmonics")?,
            scope: settings.get_double(store, "scope")?,
            ceil: settings.get_double(store, "ceil")?,
            blend: settings.get_double(store, "blend")?,
            ceil_active: settings.get_boolean(store, "ceil-active")?,
            listen: settings.get_boolean(store, "listen")?,
        };
        assert(Self::stored(store@).unwrap() =~= record.settings());
        Some(record)
    }

    /// Handing these settings to a store is handing them over one after
    /// another.
    pub proof fn lemma_applied(&self, store: StoreView)
        ensures
            store.apply(self.settings()) == store.update(self.settings()[0])
                .update(self.settings()[1]).update(self.settings()[2]).update(self.settings()[3])
                .update(self.settings()[4]).update(self.settings()[5]).update(self.settings()[6])
                .update(self.settings()[7]).update(self.settings()[8]).update(self.settings()[9]),
    {
        store.lemma_apply_steps(self.settings());
    }

    /// Hands every field to its key: a key is written only where its value
    /// would change.
    pub fn apply(&self, store: &mut SettingsStore)
        requires
            Self::stored(old(store)@) is Some,
        ensures
            final(store)@ == old(store)@.apply(self.settings()),
            forall|address: Address, kind: Kind| #[trigger]
                final(store)@.holds(address, kind) == old(store)@.holds(address, kind),
    {
        let settings = Self::location();
        update_key(store, &settings, "state", Variant::Boolean(self.state));
        update_key(store, &settings, "input-gain", Variant::Double(self.input_gain));
        update_key(store, &settings, "output-gain", Variant::Double(self.output_gain));
        update_key(store, &settings, "amount", Variant::Double(self.amount));
        update_key(store, &settings, "harmonics", Variant::Double(self.harmonics));
        update_key(store, &settings, "scope", Variant::Double(self.scope));
        update_key(store, &settings, "ceil", Variant::Double(self.ceil));
        update_key(store, &settings, "blend", Variant::Double(self.blend));
        update_key(store, &settings, "ceil-active", Variant::Boolean(self.ceil_active));
        update_key(store, &settings, "listen", Variant::Boolean(self.listen));
        proof {
            self.lemma_applied(old(store)@);
        }
    }
}

} // verus!

//! The crossfeed effect.

use crate::presets::common::update_key;
use crate::settings::{
    distinct, mark, placed, Address, Double, Kind, Section, Setting, Settings, SettingsStore,
    StoreView, Variant, VariantView,
};
use vstd::prelude::*;

verus! {

/// Parameters of the crossfeed.
#[derive(Clone, Debug)]
pub struct Crossfeed {
    pub state: bool,
    pub fcut: i32,
    pub feed: Double,
}

impl Crossfeed {
    /// Where the keys of this record live.
    pub open spec fn section() -> Section {
        Section {
            schema: "com.github.wwmm.pulseeffects.crossfeed"@,
            path: "/com/github/wwmm/pulseeffects/sinkinputs/crossfeed/"@,
        }
    }

    /// The record as the settings it stands for, in the order in which they
    /// are written.
    pub open spec fn settings(&self) -> Seq<Setting> {
        seq![
            Setting {
                address: Self::section().at("state"@),
                value: VariantView::Boolean(self.state),
            },
            Setting { address: Self::section().at("fcut"@), value: VariantView::Int32(self.fcut) },
            Setting {
                address: Self::section().at("feed"@),
                value: VariantView::Double(self.feed.bits),
            },
        ]
    }

    /// The settings that `store` holds for this record, or `None` where a key
    /// is missing or of another type.
    pub open spec fn stored(store: StoreView) -> Option<Seq<Setting>> {
        if store.holds(Self::section().at("state"@), Kind::Boolean)
            && store.holds(Self::section().at("fcut"@), Kind::Int32)
            && store.holds(Self::section().at("feed"@), Kind::Double)
        {
            Some(
                seq![
                    store.setting(Self::section().at("state"@)),
                    store.setting(Self::section().at("fcut"@)),
                    store.setting(Self::section().at("feed"@)),
                ],
            )
        } else {
            None
        }
    }

    /// The mark of the section of this record.
    pub proof fn lemma_mark()
        ensures
            mark(Self::section()) == (51nat, 'd', 'e', 's'),
    {
        reveal_strlit("/com/github/wwmm/pulseeffects/sinkinputs/crossfeed/");
    }

    /// A handle on the section where the keys of this record live.
    pub fn location() -> (r: Settings)
        ensures
            r@ == Self::section(),
    {
        Settings::with_path(
            "com.github.wwmm.pulseeffects.crossfeed",
            "/com/github/wwmm/pulseeffects/sinkinputs/crossfeed/",
        )
    }

    /// What a store holds for the record is what it holds at the keys of the
    /// record.
    pub proof fn lemma_stored(store: StoreView)
        requires
            Self::stored(store) is Some,
        ensures
            store.reads(Self::stored(store).unwrap()),
    {
    }

    /// A store that holds the record accepts its settings.
    pub proof fn lemma_accepted(&self, store: StoreView)
        requires
            Self::stored(store) is Some,
        ensures
            store.accepts(self.settings()),
    {
    }

    /// The settings of the record name keys of its section, no key twice.
    pub proof fn lemma_settings(&self)
        ensures
            distinct(self.settings()),
            placed(self.settings(), set![Self::section()]),
    {
        reveal_strlit("state");
        reveal_strlit("fcut");
        reveal_strlit("feed");
        assert("state"@.len() == 5);
        assert("fcut"@.len() == 4 && "fcut"@[1] == 'c');
        assert("feed"@.len() == 4);
    }

    /// A store that holds the same keys with the same types holds the record
    /// alike.
    pub proof fn lemma_stays_stored(before: StoreView, after: StoreView)
        requires
            forall|address: Address, kind: Kind| #[trigger]
                after.holds(address, kind) == before.holds(address, kind),
        ensures
            Self::stored(after) is Some == Self::stored(before) is Some,
    {
    }

    /// Reads the record from `store`.
    pub fn read(store: &SettingsStore) -> (r: Option<Crossfeed>)
        ensures
            match r {
                Some(record) => Self::stored(store@) == Some(record.settings()),
                None => Self::stored(store@) is None,
            },
    {
        let settings = Self::location();
        let record = Crossfeed {
            state: settings.get_boolean(store, "state")?,
            fcut: settings.get_int(store, "fcut")?,
            feed: settings.get_double(store, "feed")?,
        };
        assert(Self::stored(store@).unwrap() =~= record.settings());
        Some(record)
    }

    /// Handing these settings to a store is handing them over one after
    /// another.
    pub proof fn lemma_applied(&self, store: StoreView)
        ensures
            store.apply(self.settings()) == store.update(self.settings()[0])
                .update(self.settings()[1]).update(self.settings()[2]),
    {
        store.lemma_apply_steps(self.settings());
    }

    /// Hands every field to its key: a key is written only where its value
    /// would change.
    pub fn apply(&self, store: &mut SettingsStore)
        requires
            Self::stored(old(store)@) is Some,
        ensures
            final(store)@ == old(store)@.apply(self.settings()),
            forall|address: Address, kind: Kind| #[trigger]
                final(store)@.holds(address, kind) == old(store)@.holds(address, kind),
    {
        let settings = Self::location();
        update_key(store, &settings, "state", Variant::Boolean(self.state));
        update_key(store, &settings, "fcut", Variant::Int32(self.fcut));
        update_key(store, &settings, "feed", Variant::Double(self.feed));
        proof {
            self.lemma_applied(old(store)@);
        }
    }
}

} // verus!

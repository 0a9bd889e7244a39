//! The stereo tools effect.

use crate::presets::common::{update_key, update_string_key};
use crate::settings::{
    distinct, mark, placed, Address, Double, Kind, Section, Setting, Settings, SettingsStore,
    StoreView, Variant, VariantView,
};
use vstd::prelude::*;

verus! {

/// Parameters of the stereo tools.
#[derive(Clone, Debug)]
pub struct StereoTools {
    pub state: bool,
    pub input_gain: Double,
    pub output_gain: Double,
    pub balance_in: Double,
    pub balance_out: Double,
    pub softclip: bool,
    pub mutel: bool,
    pub muter: bool,
    pub phasel: bool,
    pub phaser: bool,
    pub mode: String,
    pub side_level: Double,
    pub side_balance: Double,
    pub middle_level: Double,
    pub middle_panorama: Double,
    pub stereo_base: Double,
    pub delay: Double,
    pub sc_level: Double,
    pub stereo_phase: Double,
}

impl StereoTools {
    /// Where the keys of this record live.
    pub open spec fn section() -> Section {
        Section {
            schema: "com.github.wwmm.pulseeffects.stereotools"@,
            path: "/com/github/wwmm/pulseeffects/sinkinputs/stereotools/"@,
        }
    }

    /// The record as the settings it stands for, in the order in which they
    /// are written.
    pub open spec fn settings(&self) -> Seq<Setting> {
        seq![
            Setting {
                address: Self::section().at("state"@),
                value: VariantView::Boolean(self.state),
            },
            Setting {
                address: Self::section().at("input-gain"@),
                value: VariantView::Double(self.input_gain.bits),
            },
            Setting {
                address: Self::section().at("output-gain"@),
                value: VariantView::Double(self.output_gain.bits),
            },
            Setting {
                address: Self::section().at("balance-in"@),
                value: VariantView::Double(self.balance_in.bits),
            },
            Setting {
                address: Self::section().at("balance-out"@),
                value: VariantView::Double(self.balance_out.bits),
            },
            Setting {
                address: Self::section().at("softclip"@),
                value: VariantView::Boolean(self.softclip),
            },
            Setting {
                address: Self::section().at("mutel"@),
                value: VariantView::Boolean(self.mutel),
            },
            Setting {
                address: Self::section().at("muter"@),
                value: VariantView::Boolean(self.muter),
            },
            Setting {
                address: Self::section().at("phasel"@),
                value: VariantView::Boolean(self.phasel),
            },
            Setting {
                address: Self::section().at("phaser"@),
                value: VariantView::Boolean(self.phaser),
            },
            Setting { address: Self::section().at("mode"@), value: VariantView::Text(self.mode@) },
            Setting {
                address: Self::section().at("slev"@),
                value: VariantView::Double(self.side_level.bits),
            },
            Setting {
                address: Self::section().at("sbal"@),
                value: VariantView::Double(self.side_balance.bits),
            },
            Setting {
                address: Self::section().at("mlev"@),
                value: VariantView::Double(self.middle_level.bits),
            },
            Setting {
                address: Self::section().at("mpan"@),
                value: VariantView::Double(self.middle_panorama.bits),
            },
            Setting {
                address: Self::section().at("stereo-base"@),
                value: VariantView::Double(self.stereo_base.bits),
            },
            Setting {
                address: Self::section().at("delay"@),
                value: VariantView::Double(self.delay.bits),
            },
            Setting {
                address: Self::section().at("sc-level"@),
                value: VariantView::Double(self.sc_level.bits),
            },
            Setting {
                address: Self::section().at("stereo-phase"@),
                value: VariantView::Double(self.stereo_phase.bits),
            },
        ]
    }

    /// The settings that `store` holds for this record, or `None` where a key
    /// is missing or of another type.
    pub open spec fn stored(store: StoreView) -> Option<Seq<Setting>> {
        if store.holds(Self::section().at("state"@), Kind::Boolean)
            && store.holds(Self::section().at("input-gain"@), Kind::Double)
            && store.holds(Self::section().at("output-gain"@), Kind::Double)
            && store.holds(Self::section().at("balance-in"@), Kind::Double)
            && store.holds(Self::section().at("balance-out"@), Kind::Double)
            && store.holds(Self::section().at("softclip"@), Kind::Boolean)
            && store.holds(Self::section().at("mutel"@), Kind::Boolean)
            && store.holds(Self::section().at("muter"@), Kind::Boolean)
            && store.holds(Self::section().at("phasel"@), Kind::Boolean)
            && store.holds(Self::section().at("phaser"@), Kind::Boolean)
            && store.holds(Self::section().at("mode"@), Kind::Text)
            && store.holds(Self::section().at("slev"@), Kind::Double)
            && store.holds(Self::section().at("sbal"@), Kind::Double)
            && store.holds(Self::section().at("mlev"@), Kind::Double)
            && store.holds(Self::section().at("mpan"@), Kind::Double)
            && store.holds(Self::section().at("stereo-base"@), Kind::Double)
            && store.holds(Self::section().at("delay"@), Kind::Double)
            && store.holds(Self::section().at("sc-level"@), Kind::Double)
            && store.holds(Self::section().at("stereo-phase"@), Kind::Double)
        {
            Some(
                seq![
                    store.setting(Self::section().at("state"@)),
                    store.setting(Self::section().at("input-gain"@)),
                    store.setting(Self::section().at("output-gain"@)),
                    store.setting(Self::section().at("balance-in"@)),
                    store.setting(Self::section().at("balance-out"@)),
                    store.setting(Self::section().at("softclip"@)),
                    store.setting(Self::section().at("mutel"@)),
                    store.setting(Self::section().at("muter"@)),
                    store.setting(Self::section().at("phasel"@)),
                    store.setting(Self::section().at("phaser"@)),
                    store.setting(Self::section().at("mode"@)),
                    store.setting(Self::section().at("slev"@)),
                    store.setting(Self::section().at("sbal"@)),
                    store.setting(Self::section().at("mlev"@)),
                    store.setting(Self::section().at("mpan"@)),
                    store.setting(Self::section().at("stereo-base"@)),
                    store.setting(Self::section().at("delay"@)),
                    store.setting(Self::section().at("sc-level"@)),
                    store.setting(Self::section().at("stereo-phase"@)),
                ],
            )
        } else {
            None
        }
    }

    /// The mark of the section of this record.
    pub proof fn lemma_mark()
        ensures
            mark(Self::section()) == (53nat, 's', 'o', 't'),
    {
        reveal_strlit("/com/github/wwmm/pulseeffects/sinkinputs/stereotools/");
    }

    /// A handle on the section where the keys of this record live.
    pub fn location() -> (r: Settings)
        ensures
            r@ == Self::section(),
    {
        Settings::with_path(
            "com.github.wwmm.pulseeffects.stereotools",
            "/com/github/wwmm/pulseeffects/sinkinputs/stereotools/",
        )
    }

    /// What a store holds for the record is what it holds at the keys of the
    /// record.
    pub proof fn lemma_stored(store: StoreView)
        requires
            Self::stored(store) is Some,
        ensures
            store.reads(Self::stored(store).unwrap()),
    {
    }

    /// A store that holds the record accepts its settings.
    pub proof fn lemma_accepted(&self, store: StoreView)
        requires
            Self::stored(store) is Some,
        ensures
            store.accepts(self.settings()),
    {
    }

    /// The settings of the record name keys of its section, no key twice.
    pub proof fn lemma_settings(&self)
        ensures
            distinct(self.settings()),
            placed(self.settings(), set![Self::section()]),
    {
        reveal_strlit("state");
        reveal_strlit("input-gain");
        reveal_strlit("output-gain");
        reveal_strlit("balance-in");
        reveal_strlit("balance-out");
        reveal_strlit("softclip");
        reveal_strlit("mutel");
        reveal_strlit("muter");
        reveal_strlit("phasel");
        reveal_strlit("phaser");
        reveal_strlit("mode");
        reveal_strlit("slev");
        reveal_strlit("sbal");
        reveal_strlit("mlev");
        reveal_strlit("mpan");
        reveal_strlit("stereo-base");
        reveal_strlit("delay");
        reveal_strlit("sc-level");
        reveal_strlit("stereo-phase");
        assert("state"@.len() == 5 && "state"@[0] == 's');
        assert("input-gain"@.len() == 10 && "input-gain"@[0] == 'i');
        assert("output-gain"@.len() == 11 && "output-gain"@[0] == 'o');
        assert("balance-in"@.len() == 10);
        assert("balance-out"@.len() == 11 && "balance-out"@[0] == 'b');
        assert("softclip"@.len() == 8 && "softclip"@[1] == 'o');
        assert("mutel"@.len() == 5 && "mutel"@[4] == 'l');
        assert("muter"@.len() == 5 && "muter"@[0] == 'm');
        assert("phasel"@.len() == 6 && "phasel"@[5] == 'l');
        assert("phaser"@.len() == 6);
        assert("mode"@.len() == 4 && "mode"@[0] == 'm' && "mode"@[1] == 'o');
        assert("slev"@.len() == 4 && "slev"@[0] == 's' && "slev"@[1] == 'l');
        assert("sbal"@.len() == 4 && "sbal"@[0] == 's');
        assert("mlev"@.len() == 4 && "mlev"@[1] == 'l');
        assert("mpan"@.len() == 4);
        assert("stereo-base"@.len() == 11);
        assert("delay"@.len() == 5);
        assert("sc-level"@.len() == 8);
        assert("stereo-phase"@.len() == 12);
    }

    /// A store that holds the same keys with the same types holds the record
    /// alike.
    pub proof fn lemma_stays_stored(before: StoreView, after: StoreView)
        requires
            forall|address: Address, kind: Kind| #[trigger]
                after.holds(address, kind) == before.holds(address, kind),
        ensures
            Self::stored(after) is Some == Self::stored(before) is Some,
    {
    }

    /// Reads the record from `store`.
    pub fn read(store: &SettingsStore) -> (r: Option<StereoTools>)
        ensures
            match r {
                Some(record) => Self::stored(store@) == Some(record.settings()),
                None => Self::stored(store@) is None,
            },
    {
        let settings = Self::location();
        let record = StereoTools {
            state: settings.get_boolean(store, "state")?,
            input_gain: settings.get_double(store, "input-gain")?,
            output_gain: settings.get_double(store, "output-gain")?,
            balance_in: settings.get_double(store, "balance-in")?,
            balance_out: settings.get_double(store, "balance-out")?,
            softclip: settings.get_boolean(store, "softclip")?,
            mutel: settings.get_boolean(store, "mutel")?,
            muter: settings.get_boolean(store, "muter")?,
            phasel: settings.get_boolean(store, "phasel")?,
            phaser: settings.get_boolean(store, "phaser")?,
            mode: settings.get_string(store, "mode")?,
            side_level: settings.get_double(store, "slev")?,
            side_balance: settings.get_double(store, "sbal")?,
            middle_level: settings.get_double(store, "mlev")?,
            middle_panorama: settings.get_double(store, "mpan")?,
            stereo_base: settings.get_double(store, "stereo-base")?,
            delay: settings.get_double(store, "delay")?,
            sc_level: settings.get_double(store, "sc-level")?,
            stereo_phase: settings.get_double(store, "stereo-phase")?,
        };
        assert(Self::stored(store@).unwrap() =~= record.settings());
        Some(record)
    }

    /// Handing these settings to a store is handing them over one after
    /// another.
    pub proof fn lemma_applied(&self, store: StoreView)
        ensures
            store.apply(self.settings()) == store.update(self.settings()[0])
                .update(self.settings()[1]).update(self.settings()[2]).update(self.settings()[3])
                .update(self.settings()[4]).update(self.settings()[5]).update(self.settings()[6])
                .update(self.settings()[7]).update(self.settings()[8]).update(self.settings()[9])
                .update(self.settings()[10]).update(self.settings()[11]).update(self.settings()[12])
                .update(self.settings()[13]).update(self.settings()[14]).update(self.settings()[15])
                .update(self.settings()[16]).update(self.settings()[17]).update(self.settings()[18]),
    {
        store.lemma_apply_steps(self.settings());
    }

    /// Hands every field to its key: a key is written only where its value
    /// would change.
    pub fn apply(&self, store: &mut SettingsStore)
        requires
            Self::stored(old(store)@) is Some,
        ensures
            final(store)@ == old(store)@.apply(self.settings()),
            forall|address: Address, kind: Kind| #[trigger]
                final(store)@.holds(address, kind) == old(store)@.holds(address, kind),
    {
        let settings = Self::location();
        update_key(store, &settings, "state", Variant::Boolean(self.state));
        update_key(store, &settings, "input-gain", Variant::Double(self.input_gain));
        update_key(store, &settings, "output-gain", Variant::Double(self.output_gain));
        update_key(store, &settings, "balance-in", Variant::Double(self.balance_in));
        update_key(store, &settings, "balance-out", Variant::Double(self.balance_out));
        update_key(store, &settings, "softclip", Variant::Boolean(self.softclip));
        update_key(store, &settings, "mutel", Variant::Boolean(self.mutel));
        update_key(store, &settings, "muter", Variant::Boolean(self.muter));
        update_key(store, &settings, "phasel", Variant::Boolean(self.phasel));
        update_key(store, &settings, "phaser", Variant::Boolean(self.phaser));
        update_string_key(store, &settings, "mode", &self.mode);
        update_key(store, &settings, "slev", Variant::Double(self.side_level));
        update_key(store, &settings, "sbal", Variant::Double(self.side_balance));
        update_key(store, &settings, "mlev", Variant::Double(self.middle_level));
        update_key(store, &settings, "mpan", Variant::Double(self.middle_panorama));
        update_key(store, &settings, "stereo-base", Variant::Double(self.stereo_base));
        update_key(store, &settings, "delay", Variant::Double(self.delay));
        update_key(store, &settings, "sc-level", Variant::Double(self.sc_level));
        update_key(store, &settings, "stereo-phase", Variant::Double(self.stereo_phase));
        proof {
            self.lemma_applied(old(store)@);
        }
    }
}

} // verus!

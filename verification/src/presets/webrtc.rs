//! The WebRTC voice processing effect.

use crate::presets::common::{update_key, update_string_key};
use crate::settings::{
    distinct, mark, placed, Address, Kind, Section, Setting, Settings, SettingsStore, StoreView,
    Variant, VariantView,
};
use vstd::prelude::*;

verus! {

/// Parameters of the WebRTC voice processing.
#[derive(Clone, Debug)]
pub struct WebRTC {
    pub state: bool,
    pub high_pass_filter: bool,
    pub echo_cancel: bool,
    pub echo_suppression_level: String,
    pub noise_suppression: bool,
    pub noise_suppression_level: String,
    pub gain_control: bool,
    pub extended_filter: bool,
    pub delay_agnostic: bool,
    pub target_level_dbfs: i32,
    pub compression_gain_db: i32,
    pub limiter: bool,
    pub gain_control_mode: String,
    pub voice_detection: bool,
    pub voice_detection_frame_size_ms: i32,
    pub voice_detection_likelihood: String,
}

impl WebRTC {
    /// Where the keys of this record live.
    pub open spec fn section() -> Section {
        Section {
            schema: "com.github.wwmm.pulseeffects.webrtc"@,
            path: "/com/github/wwmm/pulseeffects/sourceoutputs/webrtc/"@,
        }
    }

    /// The record as the settings it stands for, in the order in which they
    /// are written.
    pub open spec fn settings(&self) -> Seq<Setting> {
        seq![
            Setting {
                address: Self::section().at("state"@),
                value: VariantView::Boolean(self.state),
            },
            Setting {
                address: Self::section().at("high-pass-filter"@),
                value: VariantView::Boolean(self.high_pass_filter),
            },
            Setting {
                address: Self::section().at("echo-cancel"@),
                value: VariantView::Boolean(self.echo_cancel),
            },
            Setting {
                address: Self::section().at("echo-suppression-level"@),
                value: VariantView::Text(self.echo_suppression_level@),
            },
            Setting {
                address: Self::section().at("noise-suppression"@),
                value: VariantView::Boolean(self.noise_suppression),
            },
            Setting {
                address: Self::section().at("noise-suppression-level"@),
                value: VariantView::Text(self.noise_suppression_level@),
            },
            Setting {
                address: Self::section().at("gain-control"@),
                value: VariantView::Boolean(self.gain_control),
            },
            Setting {
                address: Self::section().at("extended-filter"@),
                value: VariantView::Boolean(self.extended_filter),
            },
            Setting {
                address: Self::section().at("delay-agnostic"@),
                value: VariantView::Boolean(self.delay_agnostic),
            },
            Setting {
                address: Self::section().at("target-level-dbfs"@),
                value: VariantView::Int32(self.target_level_dbfs),
            },
            Setting {
                address: Self::section().at("compression-gain-db"@),
                value: VariantView::Int32(self.compression_gain_db),
            },
            Setting {
                address: Self::section().at("limiter"@),
                value: VariantView::Boolean(self.limiter),
            },
            Setting {
                address: Self::section().at("gain-control-mode"@),
                value: VariantView::Text(self.gain_control_mode@),
            },
            Setting {
                address: Self::section().at("voice-detection"@),
                value: VariantView::Boolean(self.voice_detection),
            },
            Setting {
                address: Self::section().at("voice-detection-frame-size-ms"@),
                value: VariantView::Int32(self.voice_detection_frame_size_ms),
            },
            Setting {
                address: Self::section().at("voice-detection-likelihood"@),
                value: VariantView::Text(self.voice_detection_likelihood@),
            },
        ]
    }

    /// The settings that `store` holds for this record, or `None` where a key
    /// is missing or of another type.
    pub open spec fn stored(store: StoreView) -> Option<Seq<Setting>> {
        if store.holds(Self::section().at("state"@), Kind::Boolean)
            && store.holds(Self::section().at("high-pass-filter"@), Kind::Boolean)
            && store.holds(Self::section().at("echo-cancel"@), Kind::Boolean)
            && store.holds(Self::section().at("echo-suppression-level"@), Kind::Text)
            && store.holds(Self::section().at("noise-suppression"@), Kind::Boolean)
            && store.holds(Self::section().at("noise-suppression-level"@), Kind::Text)
            && store.holds(Self::section().at("gain-control"@), Kind::Boolean)
            && store.holds(Self::section().at("extended-filter"@), Kind::Boolean)
            && store.holds(Self::section().at("delay-agnostic"@), Kind::Boolean)
            && store.holds(Self::section().at("target-level-dbfs"@), Kind::Int32)
            && store.holds(Self::section().at("compression-gain-db"@), Kind::Int32)
            && store.holds(Self::section().at("limiter"@), Kind::Boolean)
            && store.holds(Self::section().at("gain-control-mode"@), Kind::Text)
            && store.holds(Self::section().at("voice-detection"@), Kind::Boolean)
            && store.holds(Self::section().at("voice-detection-frame-size-ms"@), Kind::Int32)
            && store.holds(Self::section().at("voice-detection-likelihood"@), Kind::Text)
        {
            Some(
                seq![
                    store.setting(Self::section().at("state"@)),
                    store.setting(Self::section().at("high-pass-filter"@)),
                    store.setting(Self::section().at("echo-cancel"@)),
                    store.setting(Self::section().at("echo-suppression-level"@)),
                    store.setting(Self::section().at("noise-suppression"@)),
                    store.setting(Self::section().at("noise-suppression-level"@)),
                    store.setting(Self::section().at("gain-control"@)),
                    store.setting(Self::section().at("extended-filter"@)),
                    store.setting(Self::section().at("delay-agnostic"@)),
                    store.setting(Self::section().at("target-level-dbfs"@)),
                    store.setting(Self::section().at("compression-gain-db"@)),
                    store.setting(Self::section().at("limiter"@)),
                    store.setting(Self::section().at("gain-control-mode"@)),
                    store.setting(Self::section().at("voice-detection"@)),
                    store.setting(Self::section().at("voice-detection-frame-size-ms"@)),
                    store.setting(Self::section().at("voice-detection-likelihood"@)),
                ],
            )
        } else {
            None
        }
    }

    /// The mark of the section of this record.
    pub proof fn lemma_mark()
        ensures
            mark(Self::section()) == (51nat, 'c', 'r', 'e'),
    {
        reveal_strlit("/com/github/wwmm/pulseeffects/sourceoutputs/webrtc/");
    }

    /// A handle on the section where the keys of this record live.
    pub fn location() -> (r: Settings)
        ensures
            r@ == Self::section(),
    {
        Settings::with_path(
            "com.github.wwmm.pulseeffects.webrtc",
            "/com/github/wwmm/pulseeffects/sourceoutputs/webrtc/",
        )
    }

    /// What a store holds for the record is what it holds at the keys of the
    /// record.
    pub proof fn lemma_stored(store: StoreView)
        requires
            Self::stored(store) is Some,
        ensures
            store.reads(Self::stored(store).unwrap()),
    {
    }

    /// A store that holds the record accepts its settings.
    pub proof fn lemma_accepted(&self, store: StoreView)
        requires
            Self::stored(store) is Some,
        ensures
            store.accepts(self.settings()),
    {
    }

    /// The settings of the record name keys of its section, no key twice.
    pub proof fn lemma_settings(&self)
        ensures
            distinct(self.settings()),
            placed(self.settings(), set![Self::section()]),
    {
        reveal_strlit("state");
        reveal_strlit("high-pass-filter");
        reveal_strlit("echo-cancel");
        reveal_strlit("echo-suppression-level");
        reveal_strlit("noise-suppression");
        reveal_strlit("noise-suppression-level");
        reveal_strlit("gain-control");
        reveal_strlit("extended-filter");
        reveal_strlit("delay-agnostic");
        reveal_strlit("target-level-dbfs");
        reveal_strlit("compression-gain-db");
        reveal_strlit("limiter");
        reveal_strlit("gain-control-mode");
        reveal_strlit("voice-detection");
        reveal_strlit("voice-detection-frame-size-ms");
        reveal_strlit("voice-detection-likelihood");
        assert("state"@.len() == 5);
        assert("high-pass-filter"@.len() == 16);
        assert("echo-cancel"@.len() == 11);
        assert("echo-suppression-level"@.len() == 22);
        assert("noise-suppression"@.len() == 17 && "noise-suppression"@[0] == 'n');
        assert("noise-suppression-level"@.len() == 23);
        assert("gain-control"@.len() == 12);
        assert("extended-filter"@.len() == 15 && "extended-filter"@[0] == 'e');
        assert("delay-agnostic"@.len() == 14);
        assert("target-level-dbfs"@.len() == 17 && "target-level-dbfs"@[0] == 't');
        assert("compression-gain-db"@.len() == 19);
        assert("limiter"@.len() == 7);
        assert("gain-control-mode"@.len() == 17);
        assert("voice-detection"@.len() == 15);
        assert("voice-detection-frame-size-ms"@.len() == 29);
        assert("voice-detection-likelihood"@.len() == 26);
    }

    /// A store that holds the same keys with the same types holds the record
    /// alike.
    pub proof fn lemma_stays_stored(before: StoreView, after: StoreView)
        requires
            forall|address: Address, kind: Kind| #[trigger]
                after.holds(address, kind) == before.holds(address, kind),
        ensures
            Self::stored(after) is Some == Self::stored(before) is Some,
    {
    }

    /// Reads the record from `store`.
    pub fn read(store: &SettingsStore) -> (r: Option<WebRTC>)
        ensures
            match r {
                Some(record) => Self::stored(store@) == Some(record.settings()),
                None => Self::stored(store@) is None,
            },
    {
        let settings = Self::location();
        let record = WebRTC {
            state: settings.get_boolean(store, "state")?,
            high_pass_filter: settings.get_boolean(store, "high-pass-filter")?,
            echo_cancel: settings.get_boolean(store, "echo-cancel")?,
            echo_suppression_level: settings.get_string(store, "echo-suppression-level")?,
            noise_suppression: settings.get_boolean(store, "noise-suppression")?,
            noise_suppression_level: settings.get_string(store, "noise-suppression-level")?,
            gain_control: settings.get_boolean(store, "gain-control")?,
            extended_filter: settings.get_boolean(store, "extended-filter")?,
            delay_agnostic: settings.get_boolean(store, "delay-agnostic")?,
            target_level_dbfs: settings.get_int(store, "target-level-dbfs")?,
            compression_gain_db: settings.get_int(store, "compression-gain-db")?,
            limiter: settings.get_boolean(store, "limiter")?,
            gain_control_mode: settings.get_string(store, "gain-control-mode")?,
            voice_detection: settings.get_boolean(store, "voice-detection")?,
            voice_detection_frame_size_ms: settings.get_int(store, "voice-detection-frame-size-ms")?,
            voice_detection_likelihood: settings.get_string(store, "voice-detection-likelihood")?,
        };
        assert(Self::stored(store@).unwrap() =~= record.settings());
        Some(record)
    }

    /// Handing these settings to a store is handing them over one after
    /// another.
    pub proof fn lemma_applied(&self, store: StoreView)
        ensures
            store.apply(self.settings()) == store.update(self.settings()[0])
                .update(self.settings()[1]).update(self.settings()[2]).update(self.settings()[3])
                .update(self.settings()[4]).update(self.settings()[5]).update(self.settings()[6])
                .update(self.settings()[7]).update(self.settings()[8]).update(self.settings()[9])
                .update(self.settings()[10]).update(self.settings()[11]).update(self.settings()[12])
                .update(self.settings()[13]).update(self.settings()[14]).update(self.settings()[15]),
    {
        store.lemma_apply_steps(self.settings());
    }

    /// Hands every field to its key: a key is written only where its value
    /// would change.
    pub fn apply(&self, store: &mut SettingsStore)
        requires
            Self::stored(old(store)@) is Some,
        ensures
            final(store)@ == old(store)@.apply(self.settings()),
            forall|address: Address, kind: Kind| #[trigger]
                final(store)@.holds(address, kind) == old(store)@.holds(address, kind),
    {
        let settings = Self::location();
        update_key(store, &settings, "state", Variant::Boolean(self.state));
        update_key(store, &settings, "high-pass-filter", Variant::Boolean(self.high_pass_filter));
        update_key(store, &settings, "echo-cancel", Variant::Boolean(self.echo_cancel));
        update_string_key(store, &settings, "echo-suppression-level", &self.echo_suppression_level);
        update_key(store, &settings, "noise-suppression", Variant::Boolean(self.noise_suppression));
        update_string_key(
            store,
            &settings,
            "noise-suppression-level",
            &self.noise_suppression_level,
        );
        update_key(store, &settings, "gain-control", Variant::Boolean(self.gain_control));
        update_key(store, &settings, "extended-filter", Variant::Boolean(self.extended_filter));
        update_key(store, &settings, "delay-agnostic", Variant::Boolean(self.delay_agnostic));
        update_key(store, &settings, "target-level-dbfs", Variant::Int32(self.target_level_dbfs));
        update_key(
            store,
            &settings,
            "compression-gain-db",
            Variant::Int32(self.compression_gain_db),
        );
        update_key(store, &settings, "limiter", Variant::Boolean(self.limiter));
        update_string_key(store, &settings, "gain-control-mode", &self.gain_control_mode);
        update_key(store, &settings, "voice-detection", Variant::Boolean(self.voice_detection));
        update_key(
            store,
            &settings,
            "voice-detection-frame-size-ms",
            Variant::Int32(self.voice_detection_frame_size_ms),
        );
        update_string_key(
            store,
            &settings,
            "voice-detection-likelihood",
            &self.voice_detection_likelihood,
        );
        proof {
            self.lemma_applied(old(store)@);
        }
    }
}

} // verus!

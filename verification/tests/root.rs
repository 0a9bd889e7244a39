use pulseeffects::presets::manager::{LoadError, Manager, Preset, PresetType};
use pulseeffects::presets::root;
use pulseeffects::settings::{Double, Entry, Settings, SettingsStore, Variant};

fn keys(list: &[(&str, char)]) -> Vec<(String, char)> {
    list.iter().map(|(key, kind)| (key.to_string(), *kind)).collect()
}

fn equalizer_channel_keys() -> Vec<(String, char)> {
    let mut keys = Vec::new();
    for band in 0..32 {
        for (end, kind) in [
            ("type", 's'),
            ("mode", 's'),
            ("slope", 's'),
            ("solo", 'b'),
            ("mute", 'b'),
            ("gain", 'd'),
            ("frequency", 'd'),
            ("q", 'd'),
        ] {
            keys.push((format!("band{band}-{end}"), kind));
        }
    }
    keys
}

fn output_sections() -> Vec<(&'static str, &'static str, Vec<(String, char)>)> {
    vec![
        (
            "com.github.wwmm.pulseeffects.spectrum",
            "",
            keys(&[
                ("show", 'b'), ("n-points", 'i'), ("height", 'i'), ("use-custom-color", 'b'),
                ("fill", 'b'), ("show-bar-border", 'b'), ("scale", 'd'), ("exponent", 'd'),
                ("sampling-freq", 'i'), ("line-width", 'd'), ("type", 's'), ("color", 'o'),
                ("gradient-color", 'o'),
            ]),
        ),
        (
            "com.github.wwmm.pulseeffects.autogain",
            "/com/github/wwmm/pulseeffects/sinkinputs/autogain/",
            keys(&[
                ("state", 'b'), ("detect-silence", 'b'), ("use-geometric-mean", 'b'),
                ("input-gain", 'd'), ("output-gain", 'd'), ("target", 'd'), ("weight-m", 'i'),
                ("weight-s", 'i'), ("weight-i", 'i'),
            ]),
        ),
        (
            "com.github.wwmm.pulseeffects.bassenhancer",
            "/com/github/wwmm/pulseeffects/sinkinputs/bassenhancer/",
            keys(&[
                ("state", 'b'), ("input-gain", 'd'), ("output-gain", 'd'), ("amount", 'd'),
                ("harmonics", 'd'), ("scope", 'd'), ("floor", 'd'), ("blend", 'd'),
                ("floor-active", 'b'), ("listen", 'b'),
            ]),
        ),
        (
            "com.github.wwmm.pulseeffects.compressor",
            "/com/github/wwmm/pulseeffects/sinkinputs/compressor/",
            keys(&[
                ("state", 'b'), ("input-gain", 'd'), ("output-gain", 'd'), ("mode", 's'),
                ("attack", 'd'), ("release", 'd'), ("release-threshold", 'd'), ("threshold", 'd'),
                ("ratio", 'd'), ("knee", 'd'), ("makeup", 'd'), ("boost-threshold", 'd'),
                ("sidechain-listen", 'b'), ("sidechain-type", 's'), ("sidechain-mode", 's'),
                ("sidechain-source", 's'), ("sidechain-preamp", 'd'),
                ("sidechain-reactivity", 'd'), ("sidechain-lookahead", 'd'), ("hpf-mode", 's'),
                ("hpf-frequency", 'd'), ("lpf-mode", 's'), ("lpf-frequency", 'd'),
            ]),
        ),
        (
            "com.github.wwmm.pulseeffects.convolver",
            "/com/github/wwmm/pulseeffects/sinkinputs/convolver/",
            keys(&[
                ("state", 'b'), ("input-gain", 'd'), ("output-gain", 'd'), ("kernel-path", 's'),
                ("ir-width", 'i'),
            ]),
        ),
        (
            "com.github.wwmm.pulseeffects.crossfeed",
            "/com/github/wwmm/pulseeffects/sinkinputs/crossfeed/",
            keys(&[
                ("state", 'b'), ("fcut", 'i'), ("feed", 'd'),
            ]),
        ),
        (
            "com.github.wwmm.pulseeffects.crystalizer",
            "/com/github/wwmm/pulseeffects/sinkinputs/crystalizer/",
            keys(&[
                ("state", 'b'), ("aggressive", 'b'), ("input-gain", 'd'), ("output-gain", 'd'),
                ("intensity-band0", 'd'), ("mute-band0", 'b'), ("bypass-band0", 'b'),
                ("intensity-band1", 'd'), ("mute-band1", 'b'), ("bypass-band1", 'b'),
                ("intensity-band2", 'd'), ("mute-band2", 'b'), ("bypass-band2", 'b'),
                ("intensity-band3", 'd'), ("mute-band3", 'b'), ("bypass-band3", 'b'),
                ("intensity-band4", 'd'), ("mute-band4", 'b'), ("bypass-band4", 'b'),
                ("intensity-band5", 'd'), ("mute-band5", 'b'), ("bypass-band5", 'b'),
                ("intensity-band6", 'd'), ("mute-band6", 'b'), ("bypass-band6", 'b'),
                ("intensity-band7", 'd'), ("mute-band7", 'b'), ("bypass-band7", 'b'),
                ("intensity-band8", 'd'), ("mute-band8", 'b'), ("bypass-band8", 'b'),
                ("intensity-band9", 'd'), ("mute-band9", 'b'), ("bypass-band9", 'b'),
                ("intensity-band10", 'd'), ("mute-band10", 'b'), ("bypass-band10", 'b'),
                ("intensity-band11", 'd'), ("mute-band11", 'b'), ("bypass-band11", 'b'),
                ("intensity-band12", 'd'), ("mute-band12", 'b'), ("bypass-band12", 'b'),
            ]),
        ),
        (
            "com.github.wwmm.pulseeffects.deesser",
            "/com/github/wwmm/pulseeffects/sinkinputs/deesser/",
            keys(&[
                ("state", 'b'), ("detection", 's'), ("mode", 's'), ("threshold", 'd'),
                ("ratio", 'd'), ("laxity", 'i'), ("makeup", 'd'), ("f1-freq", 'd'),
                ("f2-freq", 'd'), ("f1-level", 'd'), ("f2-level", 'd'), ("f2-q", 'd'),
                ("sc-listen", 'b'),
            ]),
        ),
        (
            "com.github.wwmm.pulseeffects.delay",
            "/com/github/wwmm/pulseeffects/sinkinputs/delay/",
            keys(&[
                ("state", 'b'), ("input-gain", 'd'), ("output-gain", 'd'), ("time-l", 'd'),
                ("time-r", 'd'),
            ]),
        ),
        (
            "com.github.wwmm.pulseeffects.equalizer",
            "/com/github/wwmm/pulseeffects/sinkinputs/equalizer/",
            keys(&[
                ("state", 'b'), ("mode", 's'), ("num-bands", 'i'), ("input-gain", 'd'),
                ("output-gain", 'd'), ("split-channels", 'b'),
            ]),
        ),
        ("com.github.wwmm.pulseeffects.equalizer.channel", "/com/github/wwmm/pulseeffects/sinkinputs/equalizer/leftchannel/", equalizer_channel_keys()),
        ("com.github.wwmm.pulseeffects.equalizer.channel", "/com/github/wwmm/pulseeffects/sinkinputs/equalizer/rightchannel/", equalizer_channel_keys()),
        (
            "com.github.wwmm.pulseeffects.exciter",
            "/com/github/wwmm/pulseeffects/sinkinputs/exciter/",
            keys(&[
                ("state", 'b'), ("input-gain", 'd'), ("output-gain", 'd'), ("amount", 'd'),
                ("harmonics", 'd'), ("scope", 'd'), ("ceil", 'd'), ("blend", 'd'),
                ("ceil-active", 'b'), ("listen", 'b'),
            ]),
        ),
        (
            "com.github.wwmm.pulseeffects.filter",
            "/com/github/wwmm/pulseeffects/sinkinputs/filter/",
            keys(&[
                ("state", 'b'), ("input-gain", 'd'), ("output-gain", 'd'), ("frequency", 'd'),
                ("resonance", 'd'), ("mode", 's'), ("inertia", 'd'),
            ]),
        ),
        (
            "com.github.wwmm.pulseeffects.gate",
            "/com/github/wwmm/pulseeffects/sinkinputs/gate/",
            keys(&[
                ("state", 'b'), ("detection", 's'), ("stereo-link", 's'), ("range", 'd'),
                ("attack", 'd'), ("release", 'd'), ("threshold", 'd'), ("ratio", 'd'),
                ("knee", 'd'), ("input", 'd'), ("makeup", 'd'),
            ]),
        ),
        (
            "com.github.wwmm.pulseeffects.limiter",
            "/com/github/wwmm/pulseeffects/sinkinputs/limiter/",
            keys(&[
                ("state", 'b'), ("input-gain", 'd'), ("limit", 'd'), ("lookahead", 'd'),
                ("release", 'd'), ("auto-level", 'b'), ("asc", 'b'), ("asc-level", 'd'),
                ("oversampling", 'i'),
            ]),
        ),
        (
            "com.github.wwmm.pulseeffects.loudness",
            "/com/github/wwmm/pulseeffects/sinkinputs/loudness/",
            keys(&[
                ("state", 'b'), ("loudness", 'd'), ("output", 'd'), ("link", 'd'),
            ]),
        ),
        (
            "com.github.wwmm.pulseeffects.maximizer",
            "/com/github/wwmm/pulseeffects/sinkinputs/maximizer/",
            keys(&[
                ("state", 'b'), ("release", 'd'), ("ceiling", 'd'), ("threshold", 'd'),
            ]),
        ),
        (
            "com.github.wwmm.pulseeffects.multibandcompressor",
            "/com/github/wwmm/pulseeffects/sinkinputs/multibandcompressor/",
            keys(&[
                ("state", 'b'), ("input-gain", 'd'), ("output-gain", 'd'), ("freq0", 'd'),
                ("freq1", 'd'), ("freq2", 'd'), ("mode", 's'), ("threshold0", 'd'),
                ("ratio0", 'd'), ("attack0", 'd'), ("release0", 'd'), ("makeup0", 'd'),
                ("knee0", 'd'), ("detection0", 's'), ("bypass0", 'b'), ("solo0", 'b'),
                ("threshold1", 'd'), ("ratio1", 'd'), ("attack1", 'd'), ("release1", 'd'),
                ("makeup1", 'd'), ("knee1", 'd'), ("detection1", 's'), ("bypass1", 'b'),
                ("solo1", 'b'), ("threshold2", 'd'), ("ratio2", 'd'), ("attack2", 'd'),
                ("release2", 'd'), ("makeup2", 'd'), ("knee2", 'd'), ("detection2", 's'),
                ("bypass2", 'b'), ("solo2", 'b'), ("threshold3", 'd'), ("ratio3", 'd'),
                ("attack3", 'd'), ("release3", 'd'), ("makeup3", 'd'), ("knee3", 'd'),
                ("detection3", 's'), ("bypass3", 'b'), ("solo3", 'b'),
            ]),
        ),
        (
            "com.github.wwmm.pulseeffects.multibandgate",
            "/com/github/wwmm/pulseeffects/sinkinputs/multibandgate/",
            keys(&[
                ("state", 'b'), ("input-gain", 'd'), ("output-gain", 'd'), ("freq0", 'd'),
                ("freq1", 'd'), ("freq2", 'd'), ("mode", 's'), ("range0", 'd'),
                ("threshold0", 'd'), ("ratio0", 'd'), ("attack0", 'd'), ("release0", 'd'),
                ("makeup0", 'd'), ("knee0", 'd'), ("detection0", 's'), ("bypass0", 'b'),
                ("solo0", 'b'), ("range1", 'd'), ("threshold1", 'd'), ("ratio1", 'd'),
                ("attack1", 'd'), ("release1", 'd'), ("makeup1", 'd'), ("knee1", 'd'),
                ("detection1", 's'), ("bypass1", 'b'), ("solo1", 'b'), ("range2", 'd'),
                ("threshold2", 'd'), ("ratio2", 'd'), ("attack2", 'd'), ("release2", 'd'),
                ("makeup2", 'd'), ("knee2", 'd'), ("detection2", 's'), ("bypass2", 'b'),
                ("solo2", 'b'), ("range3", 'd'), ("threshold3", 'd'), ("ratio3", 'd'),
                ("attack3", 'd'), ("release3", 'd'), ("makeup3", 'd'), ("knee3", 'd'),
                ("detection3", 's'), ("bypass3", 'b'), ("solo3", 'b'),
            ]),
        ),
        (
            "com.github.wwmm.pulseeffects.pitch",
            "/com/github/wwmm/pulseeffects/sinkinputs/pitch/",
            keys(&[
                ("state", 'b'), ("input-gain", 'd'), ("output-gain", 'd'), ("cents", 'd'),
                ("semitones", 'i'), ("octaves", 'i'), ("crispness", 'i'),
                ("formant-preserving", 'b'), ("faster", 'b'),
            ]),
        ),
        (
            "com.github.wwmm.pulseeffects.reverb",
            "/com/github/wwmm/pulseeffects/sinkinputs/reverb/",
            keys(&[
                ("state", 'b'), ("input-gain", 'd'), ("output-gain", 'd'), ("room-size", 's'),
                ("decay-time", 'd'), ("hf-damp", 'd'), ("diffusion", 'd'), ("amount", 'd'),
                ("dry", 'd'), ("predelay", 'd'), ("bass-cut", 'd'), ("treble-cut", 'd'),
            ]),
        ),
        (
            "com.github.wwmm.pulseeffects.stereotools",
            "/com/github/wwmm/pulseeffects/sinkinputs/stereotools/",
            keys(&[
                ("state", 'b'), ("input-gain", 'd'), ("output-gain", 'd'), ("balance-in", 'd'),
                ("balance-out", 'd'), ("softclip", 'b'), ("mutel", 'b'), ("muter", 'b'),
                ("phasel", 'b'), ("phaser", 'b'), ("mode", 's'), ("slev", 'd'), ("sbal", 'd'),
                ("mlev", 'd'), ("mpan", 'd'), ("stereo-base", 'd'), ("delay", 'd'),
                ("sc-level", 'd'), ("stereo-phase", 'd'),
            ]),
        ),
    ]
}

fn input_sections() -> Vec<(&'static str, &'static str, Vec<(String, char)>)> {
    vec![
        (
            "com.github.wwmm.pulseeffects.spectrum",
            "",
            keys(&[
                ("show", 'b'), ("n-points", 'i'), ("height", 'i'), ("use-custom-color", 'b'),
                ("fill", 'b'), ("show-bar-border", 'b'), ("scale", 'd'), ("exponent", 'd'),
                ("sampling-freq", 'i'), ("line-width", 'd'), ("type", 's'), ("color", 'o'),
                ("gradient-color", 'o'),
            ]),
        ),
        (
            "com.github.wwmm.pulseeffects.compressor",
            "/com/github/wwmm/pulseeffects/sourceoutputs/compressor/",
            keys(&[
                ("state", 'b'), ("input-gain", 'd'), ("output-gain", 'd'), ("mode", 's'),
                ("attack", 'd'), ("release", 'd'), ("release-threshold", 'd'), ("threshold", 'd'),
                ("ratio", 'd'), ("knee", 'd'), ("makeup", 'd'), ("boost-threshold", 'd'),
                ("sidechain-listen", 'b'), ("sidechain-type", 's'), ("sidechain-mode", 's'),
                ("sidechain-source", 's'), ("sidechain-preamp", 'd'),
                ("sidechain-reactivity", 'd'), ("sidechain-lookahead", 'd'), ("hpf-mode", 's'),
                ("hpf-frequency", 'd'), ("lpf-mode", 's'), ("lpf-frequency", 'd'),
            ]),
        ),
        (
            "com.github.wwmm.pulseeffects.deesser",
            "/com/github/wwmm/pulseeffects/sourceoutputs/deesser/",
            keys(&[
                ("state", 'b'), ("detection", 's'), ("mode", 's'), ("threshold", 'd'),
                ("ratio", 'd'), ("laxity", 'i'), ("makeup", 'd'), ("f1-freq", 'd'),
                ("f2-freq", 'd'), ("f1-level", 'd'), ("f2-level", 'd'), ("f2-q", 'd'),
                ("sc-listen", 'b'),
            ]),
        ),
        (
            "com.github.wwmm.pulseeffects.equalizer",
            "/com/github/wwmm/pulseeffects/sourceoutputs/equalizer/",
            keys(&[
                ("state", 'b'), ("mode", 's'), ("num-bands", 'i'), ("input-gain", 'd'),
                ("output-gain", 'd'), ("split-channels", 'b'),
            ]),
        ),
        ("com.github.wwmm.pulseeffects.equalizer.channel", "/com/github/wwmm/pulseeffects/sourceoutputs/equalizer/leftchannel/", equalizer_channel_keys()),
        ("com.github.wwmm.pulseeffects.equalizer.channel", "/com/github/wwmm/pulseeffects/sourceoutputs/equalizer/rightchannel/", equalizer_channel_keys()),
        (
            "com.github.wwmm.pulseeffects.filter",
            "/com/github/wwmm/pulseeffects/sourceoutputs/filter/",
            keys(&[
                ("state", 'b'), ("input-gain", 'd'), ("output-gain", 'd'), ("frequency", 'd'),
                ("resonance", 'd'), ("mode", 's'), ("inertia", 'd'),
            ]),
        ),
        (
            "com.github.wwmm.pulseeffects.gate",
            "/com/github/wwmm/pulseeffects/sourceoutputs/gate/",
            keys(&[
                ("state", 'b'), ("detection", 's'), ("stereo-link", 's'), ("range", 'd'),
                ("attack", 'd'), ("release", 'd'), ("threshold", 'd'), ("ratio", 'd'),
                ("knee", 'd'), ("input", 'd'), ("makeup", 'd'),
            ]),
        ),
        (
            "com.github.wwmm.pulseeffects.limiter",
            "/com/github/wwmm/pulseeffects/sourceoutputs/limiter/",
            keys(&[
                ("state", 'b'), ("input-gain", 'd'), ("limit", 'd'), ("lookahead", 'd'),
                ("release", 'd'), ("auto-level", 'b'), ("asc", 'b'), ("asc-level", 'd'),
                ("oversampling", 'i'),
            ]),
        ),
        (
            "com.github.wwmm.pulseeffects.multibandcompressor",
            "/com/github/wwmm/pulseeffects/sourceoutputs/multibandcompressor/",
            keys(&[
                ("state", 'b'), ("input-gain", 'd'), ("output-gain", 'd'), ("freq0", 'd'),
                ("freq1", 'd'), ("freq2", 'd'), ("mode", 's'), ("threshold0", 'd'),
                ("ratio0", 'd'), ("attack0", 'd'), ("release0", 'd'), ("makeup0", 'd'),
                ("knee0", 'd'), ("detection0", 's'), ("bypass0", 'b'), ("solo0", 'b'),
                ("threshold1", 'd'), ("ratio1", 'd'), ("attack1", 'd'), ("release1", 'd'),
                ("makeup1", 'd'), ("knee1", 'd'), ("detection1", 's'), ("bypass1", 'b'),
                ("solo1", 'b'), ("threshold2", 'd'), ("ratio2", 'd'), ("attack2", 'd'),
                ("release2", 'd'), ("makeup2", 'd'), ("knee2", 'd'), ("detection2", 's'),
                ("bypass2", 'b'), ("solo2", 'b'), ("threshold3", 'd'), ("ratio3", 'd'),
                ("attack3", 'd'), ("release3", 'd'), ("makeup3", 'd'), ("knee3", 'd'),
                ("detection3", 's'), ("bypass3", 'b'), ("solo3", 'b'),
            ]),
        ),
        (
            "com.github.wwmm.pulseeffects.multibandgate",
            "/com/github/wwmm/pulseeffects/sourceoutputs/multibandgate/",
            keys(&[
                ("state", 'b'), ("input-gain", 'd'), ("output-gain", 'd'), ("freq0", 'd'),
                ("freq1", 'd'), ("freq2", 'd'), ("mode", 's'), ("range0", 'd'),
                ("threshold0", 'd'), ("ratio0", 'd'), ("attack0", 'd'), ("release0", 'd'),
                ("makeup0", 'd'), ("knee0", 'd'), ("detection0", 's'), ("bypass0", 'b'),
                ("solo0", 'b'), ("range1", 'd'), ("threshold1", 'd'), ("ratio1", 'd'),
                ("attack1", 'd'), ("release1", 'd'), ("makeup1", 'd'), ("knee1", 'd'),
                ("detection1", 's'), ("bypass1", 'b'), ("solo1", 'b'), ("range2", 'd'),
                ("threshold2", 'd'), ("ratio2", 'd'), ("attack2", 'd'), ("release2", 'd'),
                ("makeup2", 'd'), ("knee2", 'd'), ("detection2", 's'), ("bypass2", 'b'),
                ("solo2", 'b'), ("range3", 'd'), ("threshold3", 'd'), ("ratio3", 'd'),
                ("attack3", 'd'), ("release3", 'd'), ("makeup3", 'd'), ("knee3", 'd'),
                ("detection3", 's'), ("bypass3", 'b'), ("solo3", 'b'),
            ]),
        ),
        (
            "com.github.wwmm.pulseeffects.pitch",
            "/com/github/wwmm/pulseeffects/sourceoutputs/pitch/",
            keys(&[
                ("state", 'b'), ("input-gain", 'd'), ("output-gain", 'd'), ("cents", 'd'),
                ("semitones", 'i'), ("octaves", 'i'), ("crispness", 'i'),
                ("formant-preserving", 'b'), ("faster", 'b'),
            ]),
        ),
        (
            "com.github.wwmm.pulseeffects.reverb",
            "/com/github/wwmm/pulseeffects/sourceoutputs/reverb/",
            keys(&[
                ("state", 'b'), ("input-gain", 'd'), ("output-gain", 'd'), ("room-size", 's'),
                ("decay-time", 'd'), ("hf-damp", 'd'), ("diffusion", 'd'), ("amount", 'd'),
                ("dry", 'd'), ("predelay", 'd'), ("bass-cut", 'd'), ("treble-cut", 'd'),
            ]),
        ),
        (
            "com.github.wwmm.pulseeffects.webrtc",
            "/com/github/wwmm/pulseeffects/sourceoutputs/webrtc/",
            keys(&[
                ("state", 'b'), ("high-pass-filter", 'b'), ("echo-cancel", 'b'),
                ("echo-suppression-level", 's'), ("noise-suppression", 'b'),
                ("noise-suppression-level", 's'), ("gain-control", 'b'), ("extended-filter", 'b'),
                ("delay-agnostic", 'b'), ("target-level-dbfs", 'i'), ("compression-gain-db", 'i'),
                ("limiter", 'b'), ("gain-control-mode", 's'), ("voice-detection", 'b'),
                ("voice-detection-frame-size-ms", 'i'), ("voice-detection-likelihood", 's'),
            ]),
        ),
    ]
}

fn sections(kind: PresetType) -> Vec<(&'static str, &'static str, Vec<(String, char)>)> {
    match kind {
        PresetType::Output => output_sections(),
        PresetType::Input => input_sections(),
    }
}

/// A value of the kind `kind` that depends on `seed`.
fn value(kind: char, seed: usize) -> Variant {
    match kind {
        'b' => Variant::Boolean(seed % 2 == 0),
        'i' => Variant::Int32(seed as i32 - 100),
        'd' => Variant::Double(Double::from_bits((seed as f64 * 0.25 - 7.0).to_bits())),
        's' => Variant::Text(format!("text {seed}")),
        _ => Variant::Other(format!("[{seed}.5, 0.25, 1.0, 0.0]")),
    }
}

/// A store that holds every key of a preset of `kind`, each with a value of
/// its own that depends on `offset`.
fn full_store(kind: PresetType, offset: usize) -> SettingsStore {
    let mut store = SettingsStore::new();
    let mut seed = offset;
    for (schema, path, keys) in sections(kind) {
        for (key, kind) in keys {
            store.insert(schema, path, &key, value(kind, seed));
            seed += 1;
        }
    }
    store
}

fn written_keys(kind: PresetType) -> Vec<(String, String, String)> {
    let mut all = Vec::new();
    for (schema, path, keys) in sections(kind) {
        for (key, _) in keys {
            all.push((schema.to_string(), path.to_string(), key));
        }
    }
    all
}

fn place(entry: &Entry) -> (String, String, String) {
    (entry.schema.clone(), entry.path.clone(), entry.key.clone())
}

fn read(kind: PresetType, store: &SettingsStore) -> Option<Preset> {
    match kind {
        PresetType::Output => root::Output::read(store).map(Preset::Output),
        PresetType::Input => root::Input::read(store).map(Preset::Input),
    }
}

fn same(a: &SettingsStore, b: &SettingsStore, kind: PresetType) -> bool {
    for (schema, path, keys) in sections(kind) {
        let settings = Settings::with_path(schema, path);
        for (key, _) in keys {
            let left = format!("{:?}", a.get(&settings, &key));
            let right = format!("{:?}", b.get(&settings, &key));
            if left != right {
                return false;
            }
        }
    }
    true
}

const KINDS: [PresetType; 2] = [PresetType::Output, PresetType::Input];

#[test]
fn the_tables_have_the_keys_of_the_two_chains() {
    let count = |kind| sections(kind).iter().map(|(_, _, keys)| keys.len()).sum::<usize>();
    assert_eq!(sections(PresetType::Output).len(), 23);
    assert_eq!(sections(PresetType::Input).len(), 14);
    assert_eq!(count(PresetType::Output), 817);
    assert_eq!(count(PresetType::Input), 721);
}

#[test]
fn a_preset_is_read_from_a_store_that_holds_every_key() {
    for kind in KINDS {
        let store = full_store(kind, 0);
        assert!(read(kind, &store).is_some());
    }
}

#[test]
fn a_preset_read_from_the_store_has_the_values_of_the_store() {
    let store = full_store(PresetType::Output, 0);
    let preset = root::Output::read(&store).unwrap();
    // The first keys of the table are those of the spectrum, then those of
    // the auto gain: the seed of a key is its position in the table.
    assert_eq!(preset.spectrum.show, true);
    assert_eq!(preset.spectrum.n_points, 1 - 100);
    assert_eq!(preset.spectrum.style, "text 10");
    assert_eq!(preset.spectrum.color, "[11.5, 0.25, 1.0, 0.0]");
    assert_eq!(preset.spectrum.gradient_color, "[12.5, 0.25, 1.0, 0.0]");
    assert_eq!(preset.output.autogain.state, false);
    assert_eq!(preset.output.autogain.detect_silence, true);
    assert_eq!(f64::from_bits(preset.output.autogain.input_gain.to_bits()), 16.0 * 0.25 - 7.0);
    assert_eq!(preset.output.autogain.weight_i, 21 - 100);
    assert!(preset.output.plugins_order.is_empty());
    assert_eq!(preset.output.crystalizer.bands.len(), 13);
    assert_eq!(preset.output.equalizer.left.bands.len(), 32);
    assert_eq!(preset.output.equalizer.right.bands.len(), 32);
}

#[test]
fn no_preset_is_read_where_a_key_is_missing() {
    for kind in KINDS {
        let all = sections(kind);
        let total: usize = all.iter().map(|(_, _, keys)| keys.len()).sum();
        for missing in (0..total).step_by(37).chain([total - 1]) {
            let mut store = SettingsStore::new();
            let mut seed = 0;
            for (schema, path, keys) in &all {
                for (key, kind) in keys {
                    if seed != missing {
                        store.insert(schema, path, key, value(*kind, seed));
                    }
                    seed += 1;
                }
            }
            assert!(read(kind, &store).is_none(), "key {missing} is not needed");
        }
    }
}

#[test]
fn no_preset_is_read_where_a_key_has_another_type() {
    for kind in KINDS {
        let all = sections(kind);
        let total: usize = all.iter().map(|(_, _, keys)| keys.len()).sum();
        for wrong in (5..total).step_by(101) {
            let mut store = SettingsStore::new();
            let mut seed = 0;
            for (schema, path, keys) in &all {
                for (key, kind) in keys {
                    let other = if *kind == 'b' { 'i' } else { 'b' };
                    store.insert(schema, path, key, value(if seed == wrong { other } else { *kind }, seed));
                    seed += 1;
                }
            }
            assert!(read(kind, &store).is_none(), "key {wrong} takes any type");
        }
    }
}

#[test]
fn loading_what_was_saved_writes_nothing() {
    let manager = Manager::new("/home/user/.config");
    for kind in KINDS {
        let mut store = full_store(kind, 0);
        let (path, preset) = manager.save(&kind, &"rock".to_string(), &store).unwrap();
        assert_eq!(path, manager.save_path(&kind, &"rock".to_string()));
        assert!(manager.load(&kind, Ok(preset), &mut store).is_ok());
        assert!(store.writes().is_empty());
        assert!(same(&store, &full_store(kind, 0), kind));
    }
}

#[test]
fn loading_restores_what_was_saved() {
    let manager = Manager::new("/home/user/.config");
    for kind in KINDS {
        let saved_from = full_store(kind, 0);
        let (_, preset) = manager.save(&kind, &"rock".to_string(), &saved_from).unwrap();
        let before = format!("{preset:?}");
        let mut store = full_store(kind, 3);
        assert!(!same(&store, &saved_from, kind));
        assert!(manager.load(&kind, Ok(preset), &mut store).is_ok());
        let after = read(kind, &store).unwrap();
        assert_eq!(format!("{after:?}"), before);
        assert!(same(&store, &saved_from, kind));
        let settings = Settings::new("com.github.wwmm.pulseeffects.spectrum");
        assert_eq!(
            settings.get_printed(&store, "color"),
            Some("[11.5, 0.25, 1.0, 0.0]".to_string())
        );
    }
}

#[test]
fn loading_writes_every_key_that_differs_in_the_order_of_the_preset() {
    let manager = Manager::new("/home/user/.config");
    for kind in KINDS {
        let (_, preset) = manager.save(&kind, &"rock".to_string(), &full_store(kind, 0)).unwrap();
        // With an odd offset every value differs from that of the preset.
        let mut store = full_store(kind, 3);
        assert!(manager.load(&kind, Ok(preset), &mut store).is_ok());
        let written: Vec<(String, String, String)> = store.writes().iter().map(place).collect();
        assert_eq!(written, written_keys(kind));
    }
}

#[test]
fn loading_writes_only_the_keys_that_differ() {
    let manager = Manager::new("/home/user/.config");
    for kind in KINDS {
        let (_, preset) = manager.save(&kind, &"rock".to_string(), &full_store(kind, 0)).unwrap();
        // With an even offset the booleans are those of the preset.
        let mut store = full_store(kind, 2);
        assert!(manager.load(&kind, Ok(preset), &mut store).is_ok());
        let expected: Vec<(String, String, String)> = sections(kind)
            .into_iter()
            .flat_map(|(schema, path, keys)| {
                keys.into_iter()
                    .filter(|(_, kind)| *kind != 'b')
                    .map(move |(key, _)| (schema.to_string(), path.to_string(), key))
            })
            .collect();
        let written: Vec<(String, String, String)> = store.writes().iter().map(place).collect();
        assert_eq!(written, expected);
    }
}

#[test]
fn loading_twice_is_loading_once() {
    let manager = Manager::new("/home/user/.config");
    for kind in KINDS {
        let (_, preset) = manager.save(&kind, &"rock".to_string(), &full_store(kind, 0)).unwrap();
        let mut once = full_store(kind, 3);
        assert!(manager.load(&kind, Ok(preset.clone()), &mut once).is_ok());
        let mut twice = full_store(kind, 3);
        assert!(manager.load(&kind, Ok(preset.clone()), &mut twice).is_ok());
        let first = twice.writes().len();
        assert!(manager.load(&kind, Ok(preset), &mut twice).is_ok());
        assert_eq!(twice.writes().len(), first);
        assert!(same(&once, &twice, kind));
    }
}

#[test]
fn loading_leaves_other_keys_alone() {
    let manager = Manager::new("/home/user/.config");
    let (_, preset) =
        manager.save(&PresetType::Input, &"rock".to_string(), &full_store(PresetType::Input, 0)).unwrap();
    let mut store = full_store(PresetType::Input, 3);
    store.insert("org.example", "/elsewhere/", "state", Variant::Boolean(true));
    assert!(manager.load(&PresetType::Input, Ok(preset), &mut store).is_ok());
    let elsewhere = Settings::with_path("org.example", "/elsewhere/");
    assert_eq!(elsewhere.get_boolean(&store, "state"), Some(true));
}

#[test]
fn a_preset_of_the_other_direction_is_refused() {
    let manager = Manager::new("/home/user/.config");
    let (_, preset) =
        manager.save(&PresetType::Input, &"rock".to_string(), &full_store(PresetType::Input, 0)).unwrap();
    let mut store = full_store(PresetType::Output, 3);
    let result = manager.load(&PresetType::Output, Ok(preset), &mut store);
    assert!(matches!(result, Err(LoadError::WrongType)));
    assert!(store.writes().is_empty());
    assert!(same(&store, &full_store(PresetType::Output, 3), PresetType::Output));
}

#[test]
fn a_preset_with_a_missing_band_is_refused() {
    let manager = Manager::new("/home/user/.config");
    let mut preset = root::Output::read(&full_store(PresetType::Output, 0)).unwrap();
    preset.output.equalizer.right.bands.pop();
    assert!(!preset.is_well_formed());
    let mut store = full_store(PresetType::Output, 3);
    let result = manager.load(&PresetType::Output, Ok(Preset::Output(preset)), &mut store);
    assert!(matches!(result, Err(LoadError::BandCount)));
    assert!(store.writes().is_empty());

    let mut preset = root::Output::read(&full_store(PresetType::Output, 0)).unwrap();
    let extra = preset.output.crystalizer.bands[0].clone();
    preset.output.crystalizer.bands.push(extra);
    assert!(!preset.is_well_formed());
    let result = manager.load(&PresetType::Output, Ok(Preset::Output(preset)), &mut store);
    assert!(matches!(result, Err(LoadError::BandCount)));
    assert!(store.writes().is_empty());
}

#[test]
fn a_store_without_a_key_of_the_preset_is_left_untouched() {
    let manager = Manager::new("/home/user/.config");
    for kind in KINDS {
        let (_, preset) = manager.save(&kind, &"rock".to_string(), &full_store(kind, 0)).unwrap();
        let all = sections(kind);
        let mut store = SettingsStore::new();
        let mut seed = 3;
        for (schema, path, keys) in &all {
            for (key, kind) in keys.iter().skip(1) {
                store.insert(schema, path, key, value(*kind, seed));
                seed += 1;
            }
        }
        let result = manager.load(&kind, Ok(preset), &mut store);
        assert!(matches!(result, Err(LoadError::Store)));
        assert!(store.writes().is_empty());
    }
}

#[test]
fn errors_come_in_their_order() {
    let manager = Manager::new("/home/user/.config");
    let mut preset = root::Input::read(&full_store(PresetType::Input, 0)).unwrap();
    preset.input.equalizer.left.bands.clear();
    let mut empty = SettingsStore::new();
    let result = manager.load(&PresetType::Output, Ok(Preset::Input(preset.clone())), &mut empty);
    assert!(matches!(result, Err(LoadError::WrongType)));
    let result = manager.load(&PresetType::Input, Ok(Preset::Input(preset)), &mut empty);
    assert!(matches!(result, Err(LoadError::BandCount)));
    let preset = root::Input::read(&full_store(PresetType::Input, 0)).unwrap();
    let result = manager.load(&PresetType::Input, Ok(Preset::Input(preset)), &mut empty);
    assert!(matches!(result, Err(LoadError::Store)));
}

#[test]
fn the_locations_are_the_sections_of_the_tables() {
    for kind in KINDS {
        let locations = match kind {
            PresetType::Output => root::Output::locations(),
            PresetType::Input => root::Input::locations(),
        };
        let found: Vec<(String, String)> =
            locations.iter().map(|l| (l.schema.clone(), l.path.clone())).collect();
        let expected: Vec<(String, String)> = sections(kind)
            .iter()
            .map(|(schema, path, _)| (schema.to_string(), path.to_string()))
            .collect();
        assert_eq!(found, expected);
    }
}

#[test]
fn no_key_stands_twice_in_a_preset() {
    for kind in KINDS {
        let mut all = written_keys(kind);
        let count = all.len();
        all.sort();
        all.dedup();
        assert_eq!(all.len(), count);
    }
}

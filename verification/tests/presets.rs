use pulseeffects::presets::autogain::AutoGain;
use pulseeffects::presets::compressor;
use pulseeffects::presets::crossfeed::Crossfeed;
use pulseeffects::presets::crystalizer::{self, Crystalizer};
use pulseeffects::presets::deesser;
use pulseeffects::presets::equalizer;
use pulseeffects::presets::equalizer_band::{band_key, Band};
use pulseeffects::presets::equalizer_right::RightInput;
use pulseeffects::presets::multiband_compressor;
use pulseeffects::presets::multiband_gate;
use pulseeffects::presets::spectrum::{color_components, printed_color, Spectrum};
use pulseeffects::presets::stereo_tools::StereoTools;
use pulseeffects::settings::{Double, Settings, SettingsStore, Variant};

fn double(value: f64) -> Variant {
    Variant::Double(Double::from_bits(value.to_bits()))
}

fn number(value: Double) -> f64 {
    f64::from_bits(value.to_bits())
}

fn text(value: &str) -> Variant {
    Variant::Text(value.to_string())
}

fn fill(store: &mut SettingsStore, settings: &Settings, entries: Vec<(&str, Variant)>) {
    for (key, value) in entries {
        store.insert(&settings.schema, &settings.path, key, value);
    }
}

fn written(store: &SettingsStore) -> Vec<String> {
    store.writes().iter().map(|entry| entry.key.clone()).collect()
}

fn autogain_entries() -> Vec<(&'static str, Variant)> {
    vec![
        ("state", Variant::Boolean(true)),
        ("detect-silence", Variant::Boolean(false)),
        ("use-geometric-mean", Variant::Boolean(true)),
        ("input-gain", double(-1.5)),
        ("output-gain", double(2.0)),
        ("target", double(-23.0)),
        ("weight-m", Variant::Int32(1)),
        ("weight-s", Variant::Int32(2)),
        ("weight-i", Variant::Int32(3)),
    ]
}

fn autogain_store() -> SettingsStore {
    let mut store = SettingsStore::new();
    fill(&mut store, &AutoGain::location(), autogain_entries());
    store
}

#[test]
fn autogain_lives_in_its_section() {
    let location = AutoGain::location();
    assert_eq!(location.schema, "com.github.wwmm.pulseeffects.autogain");
    assert_eq!(location.path, "/com/github/wwmm/pulseeffects/sinkinputs/autogain/");
}

#[test]
fn autogain_is_read_field_by_field() {
    let record = AutoGain::read(&autogain_store()).unwrap();
    assert_eq!(record.state, true);
    assert_eq!(record.detect_silence, false);
    assert_eq!(record.use_geometric_mean, true);
    assert_eq!(number(record.input_gain), -1.5);
    assert_eq!(number(record.output_gain), 2.0);
    assert_eq!(number(record.target), -23.0);
    assert_eq!(record.weight_m, 1);
    assert_eq!(record.weight_s, 2);
    assert_eq!(record.weight_i, 3);
}

#[test]
fn autogain_needs_every_key_with_its_type() {
    let entries = autogain_entries();
    for missing in 0..entries.len() {
        let mut store = SettingsStore::new();
        let mut kept = autogain_entries();
        kept.remove(missing);
        fill(&mut store, &AutoGain::location(), kept);
        assert!(AutoGain::read(&store).is_none(), "{} is not needed", entries[missing].0);
    }
    for wrong in 0..entries.len() {
        let mut store = autogain_store();
        fill(&mut store, &AutoGain::location(), vec![(entries[wrong].0, text("wrong"))]);
        assert!(AutoGain::read(&store).is_none(), "{} takes a text", entries[wrong].0);
    }
}

#[test]
fn autogain_is_not_read_from_another_section() {
    let mut store = SettingsStore::new();
    let elsewhere = Settings::with_path(
        "com.github.wwmm.pulseeffects.autogain",
        "/com/github/wwmm/pulseeffects/sourceoutputs/autogain/",
    );
    fill(&mut store, &elsewhere, autogain_entries());
    assert!(AutoGain::read(&store).is_none());
}

#[test]
fn autogain_applied_to_its_own_store_writes_nothing() {
    let mut store = autogain_store();
    let record = AutoGain::read(&store).unwrap();
    record.apply(&mut store);
    assert!(store.writes().is_empty());
}

#[test]
fn autogain_writes_what_differs_in_the_order_of_its_fields() {
    let mut store = autogain_store();
    let mut record = AutoGain::read(&store).unwrap();
    record.weight_i = 30;
    record.state = false;
    record.target = Double::from_bits((-18.0f64).to_bits());
    record.apply(&mut store);
    assert_eq!(written(&store), vec!["state", "target", "weight-i"]);
    let again = AutoGain::read(&store).unwrap();
    assert_eq!(again.state, false);
    assert_eq!(number(again.target), -18.0);
    assert_eq!(again.weight_i, 30);
    assert_eq!(again.weight_s, 2);
}

fn compressor_entries() -> Vec<(&'static str, Variant)> {
    vec![
        ("state", Variant::Boolean(true)),
        ("input-gain", double(0.0)),
        ("output-gain", double(0.0)),
        ("mode", text("Downward")),
        ("attack", double(20.0)),
        ("release", double(100.0)),
        ("release-threshold", double(-120.0)),
        ("threshold", double(-12.0)),
        ("ratio", double(4.0)),
        ("knee", double(-6.0)),
        ("makeup", double(0.0)),
        ("boost-threshold", double(-72.0)),
        ("sidechain-listen", Variant::Boolean(false)),
        ("sidechain-type", text("Feed-forward")),
        ("sidechain-mode", text("RMS")),
        ("sidechain-source", text("Middle")),
        ("sidechain-preamp", double(0.0)),
        ("sidechain-reactivity", double(10.0)),
        ("sidechain-lookahead", double(0.0)),
        ("hpf-mode", text("off")),
        ("hpf-frequency", double(10.0)),
        ("lpf-mode", text("off")),
        ("lpf-frequency", double(20000.0)),
    ]
}

#[test]
fn compressor_reads_its_sidechain() {
    let mut store = SettingsStore::new();
    fill(&mut store, &compressor::Output::location(), compressor_entries());
    let record = compressor::Output::read(&store).unwrap();
    assert_eq!(record.mode, "Downward");
    assert_eq!(number(record.threshold), -12.0);
    assert_eq!(record.sidechain.listen, false);
    assert_eq!(record.sidechain.style, "Feed-forward");
    assert_eq!(record.sidechain.mode, "RMS");
    assert_eq!(record.sidechain.source, "Middle");
    assert_eq!(number(record.sidechain.reactivity), 10.0);
    assert_eq!(record.hpf_mode, "off");
    assert_eq!(number(record.lpf_frequency), 20000.0);
    assert!(compressor::Input::read(&store).is_none());
}

#[test]
fn compressor_writes_every_field() {
    let mut store = SettingsStore::new();
    fill(&mut store, &compressor::Input::location(), compressor_entries());
    let mut record = compressor::Input::read(&store).unwrap();
    record.state = false;
    record.input_gain = Double::from_bits(1.0f64.to_bits());
    record.output_gain = Double::from_bits(1.0f64.to_bits());
    record.mode = "Upward".to_string();
    record.attack = Double::from_bits(1.0f64.to_bits());
    record.release = Double::from_bits(1.0f64.to_bits());
    record.release_threshold = Double::from_bits(1.0f64.to_bits());
    record.threshold = Double::from_bits(1.0f64.to_bits());
    record.ratio = Double::from_bits(1.0f64.to_bits());
    record.knee = Double::from_bits(1.0f64.to_bits());
    record.makeup = Double::from_bits(1.0f64.to_bits());
    record.boost_threshold = Double::from_bits(1.0f64.to_bits());
    record.sidechain.listen = true;
    record.sidechain.style = "Feed-back".to_string();
    record.sidechain.mode = "Peak".to_string();
    record.sidechain.source = "Side".to_string();
    record.sidechain.preamp = Double::from_bits(1.0f64.to_bits());
    record.sidechain.reactivity = Double::from_bits(1.0f64.to_bits());
    record.sidechain.lookahead = Double::from_bits(1.0f64.to_bits());
    record.hpf_mode = "12 dB/oct".to_string();
    record.hpf_frequency = Double::from_bits(1.0f64.to_bits());
    record.lpf_mode = "12 dB/oct".to_string();
    record.lpf_frequency = Double::from_bits(1.0f64.to_bits());
    record.apply(&mut store);
    let keys: Vec<String> = compressor_entries().iter().map(|(key, _)| key.to_string()).collect();
    assert_eq!(written(&store), keys);
    assert_eq!(store.writes()[0].path, "/com/github/wwmm/pulseeffects/sourceoutputs/compressor/");
    assert_eq!(number(compressor::Input::read(&store).unwrap().threshold), 1.0);
}

#[test]
fn crossfeed_lives_in_the_section_that_it_writes_to() {
    let location = Crossfeed::location();
    assert_eq!(location.schema, "com.github.wwmm.pulseeffects.crossfeed");
    assert_eq!(location.path, "/com/github/wwmm/pulseeffects/sinkinputs/crossfeed/");
    let mut store = SettingsStore::new();
    fill(
        &mut store,
        &location,
        vec![("state", Variant::Boolean(true)), ("fcut", Variant::Int32(700)), ("feed", double(4.5))],
    );
    let mut record = Crossfeed::read(&store).unwrap();
    assert_eq!(record.fcut, 700);
    record.fcut = 650;
    record.apply(&mut store);
    assert_eq!(written(&store), vec!["fcut"]);
}

#[test]
fn deesser_keeps_frequencies_and_levels_apart() {
    let mut store = SettingsStore::new();
    fill(
        &mut store,
        &deesser::Output::location(),
        vec![
            ("state", Variant::Boolean(true)),
            ("detection", text("RMS")),
            ("mode", text("Wide")),
            ("threshold", double(-18.0)),
            ("ratio", double(3.0)),
            ("laxity", Variant::Int32(15)),
            ("makeup", double(0.0)),
            ("f1-freq", double(6000.0)),
            ("f2-freq", double(4500.0)),
            ("f1-level", double(1.0)),
            ("f2-level", double(12.0)),
            ("f2-q", double(1.5)),
            ("sc-listen", Variant::Boolean(false)),
        ],
    );
    let mut record = deesser::Output::read(&store).unwrap();
    assert_eq!(number(record.f1_freq), 6000.0);
    assert_eq!(number(record.f2_freq), 4500.0);
    assert_eq!(number(record.f1_level), 1.0);
    assert_eq!(number(record.f2_level), 12.0);
    assert_eq!(number(record.f2_q), 1.5);
    record.ratio = Double::from_bits(5.0f64.to_bits());
    record.f2_level = Double::from_bits(9.0f64.to_bits());
    record.apply(&mut store);
    assert_eq!(written(&store), vec!["ratio", "f2-level"]);
}

#[test]
fn stereo_tools_use_the_short_keys_of_the_levels() {
    let mut store = SettingsStore::new();
    fill(
        &mut store,
        &StereoTools::location(),
        vec![
            ("state", Variant::Boolean(true)),
            ("input-gain", double(0.0)),
            ("output-gain", double(0.0)),
            ("balance-in", double(0.0)),
            ("balance-out", double(0.0)),
            ("softclip", Variant::Boolean(false)),
            ("mutel", Variant::Boolean(false)),
            ("muter", Variant::Boolean(true)),
            ("phasel", Variant::Boolean(false)),
            ("phaser", Variant::Boolean(true)),
            ("mode", text("LR > LR (Stereo Default)")),
            ("slev", double(1.0)),
            ("sbal", double(2.0)),
            ("mlev", double(3.0)),
            ("mpan", double(4.0)),
            ("stereo-base", double(5.0)),
            ("delay", double(6.0)),
            ("sc-level", double(7.0)),
            ("stereo-phase", double(8.0)),
        ],
    );
    let mut record = StereoTools::read(&store).unwrap();
    assert_eq!(number(record.side_level), 1.0);
    assert_eq!(number(record.side_balance), 2.0);
    assert_eq!(number(record.middle_level), 3.0);
    assert_eq!(number(record.middle_panorama), 4.0);
    assert_eq!(record.muter, true);
    assert_eq!(record.phasel, false);
    record.middle_panorama = Double::from_bits(0.5f64.to_bits());
    record.apply(&mut store);
    assert_eq!(written(&store), vec!["mpan"]);
}

fn spectrum_entries() -> Vec<(&'static str, Variant)> {
    vec![
        ("show", Variant::Boolean(true)),
        ("n-points", Variant::Int32(100)),
        ("height", Variant::Int32(100)),
        ("use-custom-color", Variant::Boolean(false)),
        ("fill", Variant::Boolean(true)),
        ("show-bar-border", Variant::Boolean(true)),
        ("scale", double(1.0)),
        ("exponent", double(1.0)),
        ("sampling-freq", Variant::Int32(10)),
        ("line-width", double(2.0)),
        ("type", text("Bars")),
        ("color", Variant::Other("[1.0, 1.0, 1.0, 1.0]".to_string())),
        ("gradient-color", Variant::Other("[0.0, 0.5, 0.25, 1.0]".to_string())),
    ]
}

#[test]
fn colours_are_split_into_their_components() {
    assert_eq!(color_components("[1.0, 1.0, 1.0, 1.0]"), vec!["1.0", "1.0", "1.0", "1.0"]);
    assert_eq!(color_components("[0.0,0.5, 0.25 ,1.0]"), vec!["0.0", "0.5", "0.25", "1.0"]);
    assert_eq!(color_components("[]"), vec![""]);
    assert_eq!(color_components(""), vec![""]);
    assert_eq!(color_components("[1e-3]"), vec!["1e-3"]);
    assert_eq!(color_components("[[1, 2], [3]]"), vec!["1", "2", "3"]);
}

#[test]
fn colours_are_split_as_the_standard_library_would() {
    for printed in ["[1.0, 1.0, 1.0, 1.0]", "[]", "", " [ 0.5 ] ", "1,,2", "[a, b], c"] {
        let expected: Vec<String> = printed
            .replace("[", "")
            .replace("]", "")
            .replace(" ", "")
            .split(",")
            .map(|piece| piece.to_string())
            .collect();
        assert_eq!(color_components(printed), expected, "{printed:?}");
    }
}

#[test]
fn spectrum_has_a_schema_with_a_path_of_its_own() {
    let location = Spectrum::location();
    assert_eq!(location.schema, "com.github.wwmm.pulseeffects.spectrum");
    assert_eq!(location.path, "");
}

#[test]
fn colours_are_printed_in_brackets_with_commas_between() {
    let strings = |list: &[&str]| list.iter().map(|s| s.to_string()).collect::<Vec<String>>();
    assert_eq!(printed_color(&strings(&["1.0", "0.5", "0.25", "1.0"])), "[1.0, 0.5, 0.25, 1.0]");
    assert_eq!(printed_color(&strings(&["1.0"])), "[1.0]");
    assert_eq!(printed_color(&strings(&[])), "[]");
    assert_eq!(printed_color(&strings(&["", ""])), "[, ]");
}

#[test]
fn printed_colours_have_their_components_again() {
    for list in [vec!["1.0", "0.5", "0.25", "1.0"], vec!["0"], vec!["1e-3", "-2.5", "inf"], vec![""]] {
        let components: Vec<String> = list.iter().map(|s| s.to_string()).collect();
        assert_eq!(color_components(&printed_color(&components)), components);
    }
    for printed in ["[1.0, 1.0, 1.0, 1.0]", "[0.5]", "[0.0, 1.0]"] {
        assert_eq!(printed_color(&color_components(printed)), printed);
    }
}

#[test]
fn spectrum_reads_and_writes_its_colours() {
    let mut store = SettingsStore::new();
    fill(&mut store, &Spectrum::location(), spectrum_entries());
    let mut record = Spectrum::read(&store).unwrap();
    assert_eq!(record.style, "Bars");
    assert_eq!(record.color, "[1.0, 1.0, 1.0, 1.0]");
    assert_eq!(record.gradient_color, "[0.0, 0.5, 0.25, 1.0]");
    assert_eq!(color_components(&record.gradient_color), vec!["0.0", "0.5", "0.25", "1.0"]);
    record.apply(&mut store);
    assert!(store.writes().is_empty());
    record.color = "[0.0, 0.0, 0.0, 1.0]".to_string();
    record.style = "Lines".to_string();
    record.apply(&mut store);
    assert_eq!(written(&store), vec!["type", "color"]);
    assert_eq!(
        Spectrum::location().get_printed(&store, "color"),
        Some("[0.0, 0.0, 0.0, 1.0]".to_string())
    );
    assert_eq!(
        Spectrum::location().get_printed(&store, "gradient-color"),
        Some("[0.0, 0.5, 0.25, 1.0]".to_string())
    );
    assert!(matches!(store.writes()[1].value, Variant::Other(_)));
}

#[test]
fn spectrum_needs_its_colours_to_be_read() {
    let mut store = SettingsStore::new();
    let mut entries = spectrum_entries();
    entries.pop();
    fill(&mut store, &Spectrum::location(), entries);
    assert!(Spectrum::read(&store).is_none());
}

fn crystalizer_store() -> SettingsStore {
    let mut store = SettingsStore::new();
    let location = Crystalizer::location();
    fill(
        &mut store,
        &location,
        vec![
            ("state", Variant::Boolean(true)),
            ("aggressive", Variant::Boolean(false)),
            ("input-gain", double(0.0)),
            ("output-gain", double(0.0)),
        ],
    );
    for band in 0..13 {
        store.insert(&location.schema, &location.path, &format!("intensity-band{band}"), double(band as f64));
        store.insert(&location.schema, &location.path, &format!("mute-band{band}"), Variant::Boolean(band % 2 == 0));
        store.insert(&location.schema, &location.path, &format!("bypass-band{band}"), Variant::Boolean(band % 3 == 0));
    }
    store
}

#[test]
fn crystalizer_has_thirteen_bands() {
    assert_eq!(crystalizer::BANDS, 13);
    let record = Crystalizer::read(&crystalizer_store()).unwrap();
    assert!(record.is_well_formed());
    assert_eq!(record.bands.len(), 13);
    for (index, band) in record.bands.iter().enumerate() {
        assert_eq!(number(band.intensity), index as f64);
        assert_eq!(band.mute, index % 2 == 0);
        assert_eq!(band.bypass, index % 3 == 0);
    }
}

#[test]
fn crystalizer_needs_its_last_band() {
    let mut store = SettingsStore::new();
    let location = Crystalizer::location();
    let full = crystalizer_store();
    for key in ["state", "aggressive"] {
        store.insert(&location.schema, &location.path, key, full.get(&location, key).unwrap().duplicate());
    }
    assert!(Crystalizer::read(&store).is_none());
    let mut store = crystalizer_store();
    store.insert(&location.schema, &location.path, "bypass-band12", double(1.0));
    assert!(Crystalizer::read(&store).is_none());
}

#[test]
fn crystalizer_writes_the_keys_of_the_band_that_changed() {
    let mut store = crystalizer_store();
    let mut record = Crystalizer::read(&store).unwrap();
    record.bands[12].intensity = Double::from_bits(0.5f64.to_bits());
    record.bands[10].mute = false;
    record.bands[0].bypass = false;
    record.aggressive = true;
    record.apply(&mut store);
    assert_eq!(written(&store), vec!["aggressive", "bypass-band0", "mute-band10", "intensity-band12"]);
}

fn equalizer_band(index: usize) -> Band {
    Band {
        style: format!("Bell {index}"),
        mode: "RLC (BT)".to_string(),
        slope: "x1".to_string(),
        solo: index % 2 == 0,
        mute: index % 3 == 0,
        gain: Double::from_bits((index as f64).to_bits()),
        frequency: Double::from_bits((index as f64 * 100.0).to_bits()),
        q: Double::from_bits(4.36f64.to_bits()),
    }
}

fn fill_channel(store: &mut SettingsStore, location: &Settings) {
    for index in 0..32 {
        let band = equalizer_band(index);
        for (end, value) in [
            ("-type", Variant::Text(band.style.clone())),
            ("-mode", Variant::Text(band.mode.clone())),
            ("-slope", Variant::Text(band.slope.clone())),
            ("-solo", Variant::Boolean(band.solo)),
            ("-mute", Variant::Boolean(band.mute)),
            ("-gain", Variant::Double(band.gain)),
            ("-frequency", Variant::Double(band.frequency)),
            ("-q", Variant::Double(band.q)),
        ] {
            store.insert(&location.schema, &location.path, &format!("band{index}{end}"), value);
        }
    }
}

#[test]
fn band_keys_hold_the_number_of_the_band() {
    assert_eq!(band_key(0, "-type"), "band0-type");
    assert_eq!(band_key(9, "-q"), "band9-q");
    assert_eq!(band_key(10, "-frequency"), "band10-frequency");
    assert_eq!(band_key(31, "-slope"), "band31-slope");
}

#[test]
fn an_equalizer_channel_has_thirty_two_bands() {
    let mut store = SettingsStore::new();
    let location = RightInput::location();
    assert_eq!(location.schema, "com.github.wwmm.pulseeffects.equalizer.channel");
    assert_eq!(location.path, "/com/github/wwmm/pulseeffects/sourceoutputs/equalizer/rightchannel/");
    fill_channel(&mut store, &location);
    let mut record = RightInput::read(&store).unwrap();
    assert_eq!(record.bands.len(), 32);
    for (index, band) in record.bands.iter().enumerate() {
        assert_eq!(format!("{band:?}"), format!("{:?}", equalizer_band(index)));
    }
    record.bands[31].q = Double::from_bits(1.0f64.to_bits());
    record.bands[3].style = "Notch".to_string();
    record.bands[3].gain = Double::from_bits((-2.0f64).to_bits());
    record.apply(&mut store);
    assert_eq!(written(&store), vec!["band3-type", "band3-gain", "band31-q"]);
    record.bands.truncate(31);
    assert!(!record.is_well_formed());
}

#[test]
fn the_equalizer_reads_and_writes_its_two_channels() {
    let mut store = SettingsStore::new();
    let own = equalizer::Output::location();
    fill(
        &mut store,
        &own,
        vec![
            ("state", Variant::Boolean(true)),
            ("mode", text("IIR")),
            ("num-bands", Variant::Int32(30)),
            ("input-gain", double(0.0)),
            ("output-gain", double(0.0)),
            ("split-channels", Variant::Boolean(false)),
        ],
    );
    assert!(equalizer::Output::read(&store).is_none());
    let left = Settings::with_path(
        "com.github.wwmm.pulseeffects.equalizer.channel",
        "/com/github/wwmm/pulseeffects/sinkinputs/equalizer/leftchannel/",
    );
    let right = Settings::with_path(
        "com.github.wwmm.pulseeffects.equalizer.channel",
        "/com/github/wwmm/pulseeffects/sinkinputs/equalizer/rightchannel/",
    );
    fill_channel(&mut store, &left);
    assert!(equalizer::Output::read(&store).is_none());
    fill_channel(&mut store, &right);
    let mut record = equalizer::Output::read(&store).unwrap();
    assert!(record.is_well_formed());
    assert_eq!(record.num_bands, 30);
    record.num_bands = 10;
    record.left.bands[0].mute = false;
    record.right.bands[1].solo = true;
    record.apply(&mut store);
    let places: Vec<(String, String)> =
        store.writes().iter().map(|entry| (entry.path.clone(), entry.key.clone())).collect();
    assert_eq!(
        places,
        vec![
            (own.path.clone(), "num-bands".to_string()),
            (left.path.clone(), "band0-mute".to_string()),
            (right.path.clone(), "band1-solo".to_string()),
        ]
    );
}

fn multiband_entries(with_range: bool) -> Vec<(String, Variant)> {
    let mut entries = vec![
        ("state".to_string(), Variant::Boolean(true)),
        ("input-gain".to_string(), double(0.0)),
        ("output-gain".to_string(), double(0.0)),
        ("freq0".to_string(), double(120.0)),
        ("freq1".to_string(), double(1000.0)),
        ("freq2".to_string(), double(6000.0)),
        ("mode".to_string(), text("LR8")),
    ];
    for band in 0..4 {
        if with_range {
            entries.push((format!("range{band}"), double(-(band as f64))));
        }
        entries.push((format!("threshold{band}"), double(band as f64 + 0.5)));
        entries.push((format!("ratio{band}"), double(2.0)));
        entries.push((format!("attack{band}"), double(150.0)));
        entries.push((format!("release{band}"), double(300.0)));
        entries.push((format!("makeup{band}"), double(0.0)));
        entries.push((format!("knee{band}"), double(9.0)));
        entries.push((format!("detection{band}"), text("RMS")));
        entries.push((format!("bypass{band}"), Variant::Boolean(false)));
        entries.push((format!("solo{band}"), Variant::Boolean(band == 2)));
    }
    entries
}

#[test]
fn the_multiband_compressor_numbers_its_bands_from_the_lowest() {
    let mut store = SettingsStore::new();
    let location = multiband_compressor::Output::location();
    for (key, value) in multiband_entries(false) {
        store.insert(&location.schema, &location.path, &key, value);
    }
    let mut record = multiband_compressor::Output::read(&store).unwrap();
    assert_eq!(number(record.subband.threshold), 0.5);
    assert_eq!(number(record.lowband.threshold), 1.5);
    assert_eq!(number(record.midband.threshold), 2.5);
    assert_eq!(number(record.highband.threshold), 3.5);
    assert_eq!(record.midband.solo, true);
    assert_eq!(record.highband.solo, false);
    record.highband.detection = "Peak".to_string();
    record.subband.knee = Double::from_bits(3.0f64.to_bits());
    record.freq1 = Double::from_bits(900.0f64.to_bits());
    record.apply(&mut store);
    assert_eq!(written(&store), vec!["freq1", "knee0", "detection3"]);
}

#[test]
fn the_multiband_gate_keeps_its_reduction_under_the_range_keys() {
    let mut store = SettingsStore::new();
    let location = multiband_gate::Input::location();
    assert_eq!(location.path, "/com/github/wwmm/pulseeffects/sourceoutputs/multibandgate/");
    for (key, value) in multiband_entries(false) {
        store.insert(&location.schema, &location.path, &key, value);
    }
    assert!(multiband_gate::Input::read(&store).is_none());
    for (key, value) in multiband_entries(true) {
        store.insert(&location.schema, &location.path, &key, value);
    }
    let mut record = multiband_gate::Input::read(&store).unwrap();
    assert_eq!(number(record.lowband.reduction), -1.0);
    assert_eq!(number(record.highband.reduction), -3.0);
    record.midband.reduction = Double::from_bits((-24.0f64).to_bits());
    record.apply(&mut store);
    assert_eq!(written(&store), vec!["range2"]);
}

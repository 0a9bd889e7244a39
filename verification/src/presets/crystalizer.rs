//! The crystalizer effect and its thirteen bands.

use crate::presets::common::update_key;
use crate::settings::{
    distinct, mark, placed, Address, Double, Kind, Section, Setting, Settings, SettingsStore,
    StoreView, Variant, VariantView,
};
use crate::text::{is_digit, lemma_numbered_ends, lemma_numbered_injective, numbered, numbered_name};
use vstd::prelude::*;

verus! {

/// The number of bands of the crystalizer.
pub const BANDS: usize = 13;

/// One band of the crystalizer.
#[derive(Clone, Debug)]
pub struct Band {
    pub intensity: Double,
    pub mute: bool,
    pub bypass: bool,
}

impl Band {
    /// The band as the settings it stands for when it is the band `index` of
    /// `section`, in the order in which they are written.
    pub open spec fn settings(&self, section: Section, index: nat) -> Seq<Setting> {
        seq![
            Setting {
                address: section.at(numbered("intensity-band"@, index)),
                value: VariantView::Double(self.intensity.bits),
            },
            Setting {
                address: section.at(numbered("mute-band"@, index)),
                value: VariantView::Boolean(self.mute),
            },
            Setting {
                address: section.at(numbered("bypass-band"@, index)),
                value: VariantView::Boolean(self.bypass),
            },
        ]
    }

    /// The settings that `store` holds for the band `index` of `section`, or
    /// `None` where a key is missing or of another type.
    pub open spec fn stored(store: StoreView, section: Section, index: nat) -> Option<
        Seq<Setting>,
    > {
        if store.holds(section.at(numbered("intensity-band"@, index)), Kind::Double)
            && store.holds(section.at(numbered("mute-band"@, index)), Kind::Boolean)
            && store.holds(section.at(numbered("bypass-band"@, index)), Kind::Boolean)
        {
            Some(
                seq![
                    store.setting(section.at(numbered("intensity-band"@, index))),
                    store.setting(section.at(numbered("mute-band"@, index))),
                    store.setting(section.at(numbered("bypass-band"@, index))),
                ],
            )
        } else {
            None
        }
    }

    /// A store that holds the same keys with the same types holds the band alike.
    pub proof fn lemma_stays_stored(
        before: StoreView,
        after: StoreView,
        section: Section,
        index: nat,
    )
        requires
            forall|address: Address, kind: Kind| #[trigger]
                after.holds(address, kind) == before.holds(address, kind),
        ensures
            Self::stored(after, section, index) is Some == Self::stored(
                before,
                section,
                index,
            ) is Some,
    {
    }

    /// What a store holds for a band is what it holds at the keys of the
    /// band.
    pub proof fn lemma_stored(store: StoreView, section: Section, index: nat)
        requires
            Self::stored(store, section, index) is Some,
        ensures
            store.reads(Self::stored(store, section, index).unwrap()),
    {
    }

    /// A store that holds the band accepts its settings.
    pub proof fn lemma_accepted(&self, section: Section, index: nat, store: StoreView)
        requires
            Self::stored(store, section, index) is Some,
        ensures
            store.accepts(self.settings(section, index)),
    {
    }

    /// The settings of a band name keys of `section`, no key twice.
    pub proof fn lemma_settings(&self, section: Section, index: nat)
        ensures
            distinct(self.settings(section, index)),
            placed(self.settings(section, index), set![section]),
            forall|k: int|
                0 <= k < self.settings(section, index).len() ==> is_digit(
                    (#[trigger] self.settings(section, index)[k]).address.key.last(),
                ),
    {
        reveal_strlit("intensity-band");
        reveal_strlit("mute-band");
        reveal_strlit("bypass-band");
        assert("intensity-band"@.len() == 14 && "intensity-band"@[0] == 'i');
        assert("mute-band"@.len() == 9 && "mute-band"@[0] == 'm');
        assert("bypass-band"@.len() == 11);
        lemma_numbered_ends("intensity-band"@, index);
        lemma_numbered_ends("mute-band"@, index);
        lemma_numbered_ends("bypass-band"@, index);
    }

    /// Bands of different indices name different keys.
    pub proof fn lemma_bands_differ(&self, index: nat, other: Band, other_index: nat, section: Section)
        requires
            index != other_index,
        ensures
            forall|a: int, b: int|
                0 <= a < self.settings(section, index).len() && 0 <= b < other.settings(
                    section,
                    other_index,
                ).len() ==> (#[trigger] self.settings(section, index)[a]).address != (#[trigger] other.settings(
                    section,
                    other_index,
                )[b]).address,
    {
        reveal_strlit("intensity-band");
        reveal_strlit("mute-band");
        reveal_strlit("bypass-band");
        assert("intensity-band"@.len() == 14 && "intensity-band"@[0] == 'i');
        assert("mute-band"@.len() == 9 && "mute-band"@[0] == 'm');
        assert("bypass-band"@.len() == 11);
        lemma_numbered_ends("intensity-band"@, index);
        lemma_numbered_ends("intensity-band"@, other_index);
        if numbered("intensity-band"@, index) == numbered("intensity-band"@, other_index) {
            lemma_numbered_injective("intensity-band"@, index, other_index);
        }
        lemma_numbered_ends("mute-band"@, index);
        lemma_numbered_ends("mute-band"@, other_index);
        if numbered("mute-band"@, index) == numbered("mute-band"@, other_index) {
            lemma_numbered_injective("mute-band"@, index, other_index);
        }
        lemma_numbered_ends("bypass-band"@, index);
        lemma_numbered_ends("bypass-band"@, other_index);
        if numbered("bypass-band"@, index) == numbered("bypass-band"@, other_index) {
            lemma_numbered_injective("bypass-band"@, index, other_index);
        }
    }

    /// Reads the band `index` of `settings` from `store`.
    pub fn read(store: &SettingsStore, settings: &Settings, index: usize) -> (r: Option<Band>)
        ensures
            match r {
                Some(band) => Self::stored(store@, settings@, index as nat) == Some(
                    band.settings(settings@, index as nat),
                ),
                None => Self::stored(store@, settings@, index as nat) is None,
            },
    {
        let band = Band {
            intensity: settings.get_double(store, numbered_name("intensity-band", index).as_str())?,
            mute: settings.get_boolean(store, numbered_name("mute-band", index).as_str())?,
            bypass: settings.get_boolean(store, numbered_name("bypass-band", index).as_str())?,
        };
        assert(Self::stored(store@, settings@, index as nat).unwrap() =~= band.settings(
            settings@,
            index as nat,
        ));
        Some(band)
    }

    /// Handing these settings to a store is handing them over one after
    /// another.
    pub proof fn lemma_applied(&self, section: Section, index: nat, store: StoreView)
        ensures
            store.apply(self.settings(section, index)) == store
                .update(self.settings(section, index)[0]).update(self.settings(section, index)[1])
                .update(self.settings(section, index)[2]),
    {
        store.lemma_apply_steps(self.settings(section, index));
    }

    /// Hands every field to its key of the band `index` of `settings`: a key is
    /// written only where its value would change.
    pub fn apply(&self, store: &mut SettingsStore, settings: &Settings, index: usize)
        requires
            Self::stored(old(store)@, settings@, index as nat) is Some,
        ensures
            final(store)@ == old(store)@.apply(self.settings(settings@, index as nat)),
            forall|address: Address, kind: Kind| #[trigger]
                final(store)@.holds(address, kind) == old(store)@.holds(address, kind),
    {
        update_key(
            store,
            settings,
            numbered_name("intensity-band", index).as_str(),
            Variant::Double(self.intensity),
        );
        update_key(
            store,
            settings,
            numbered_name("mute-band", index).as_str(),
            Variant::Boolean(self.mute),
        );
        update_key(
            store,
            settings,
            numbered_name("bypass-band", index).as_str(),
            Variant::Boolean(self.bypass),
        );
        proof {
            self.lemma_applied(settings@, index as nat, old(store)@);
        }
    }
}

/// The first `count` bands of `bands` as the settings they stand for in
/// `section`, band after band.
pub open spec fn bands_settings(bands: Seq<Band>, section: Section, count: nat) -> Seq<Setting>
    decreases count,
{
    if count == 0 {
        Seq::empty()
    } else {
        bands_settings(bands, section, (count - 1) as nat) + bands[count - 1].settings(
            section,
            (count - 1) as nat,
        )
    }
}

/// The settings that `store` holds for the first `count` bands of `section`,
/// or `None` where a key of one of them is missing or of another type.
pub open spec fn bands_stored(store: StoreView, section: Section, count: nat) -> Option<
    Seq<Setting>,
>
    decreases count,
{
    if count == 0 {
        Some(Seq::empty())
    } else {
        match (
            bands_stored(store, section, (count - 1) as nat),
            Band::stored(store, section, (count - 1) as nat),
        ) {
            (Some(before), Some(last)) => Some(before + last),
            _ => None,
        }
    }
}

/// The settings of the first `count` bands depend on those bands alone.
pub proof fn lemma_bands_settings_prefix(a: Seq<Band>, b: Seq<Band>, section: Section, count: nat)
    requires
        count <= a.len(),
        count <= b.len(),
        forall|i: int| 0 <= i < count ==> a[i] == b[i],
    ensures
        bands_settings(a, section, count) == bands_settings(b, section, count),
    decreases count,
{
    if count > 0 {
        lemma_bands_settings_prefix(a, b, section, (count - 1) as nat);
    }
}

/// The store holds `count` bands exactly where it holds each of them.
pub proof fn lemma_bands_stored(store: StoreView, section: Section, count: nat)
    ensures
        bands_stored(store, section, count) is Some <==> forall|i: nat|
            i < count ==> (#[trigger] Band::stored(store, section, i)) is Some,
    decreases count,
{
    if count > 0 {
        lemma_bands_stored(store, section, (count - 1) as nat);
        if bands_stored(store, section, count) is Some {
            assert forall|i: nat| i < count implies (#[trigger] Band::stored(
                store,
                section,
                i,
            )) is Some by {
                if i < count - 1 {
                } else {
                    assert(i == (count - 1) as nat);
                }
            }
        } else if bands_stored(store, section, (count - 1) as nat) is Some {
            assert(Band::stored(store, section, (count - 1) as nat) is None);
        }
    }
}

/// A store that holds the same keys with the same types holds the same bands.
pub proof fn lemma_bands_stay_stored(
    before: StoreView,
    after: StoreView,
    section: Section,
    count: nat,
)
    requires
        forall|address: Address, kind: Kind| #[trigger]
            after.holds(address, kind) == before.holds(address, kind),
    ensures
        bands_stored(after, section, count) is Some == bands_stored(before, section, count) is Some,
    decreases count,
{
    if count > 0 {
        lemma_bands_stay_stored(before, after, section, (count - 1) as nat);
    }
}

/// Every setting of the first `count` bands is a setting of one of them.
pub proof fn lemma_bands_element(bands: Seq<Band>, section: Section, count: nat, position: int)
    requires
        count <= bands.len(),
        0 <= position < bands_settings(bands, section, count).len(),
    ensures
        exists|index: nat, field: int|
            index < count && 0 <= field < bands[index as int].settings(section, index).len()
                && bands_settings(bands, section, count)[position]
                == #[trigger] bands[index as int].settings(section, index)[field],
    decreases count,
{
    let before = bands_settings(bands, section, (count - 1) as nat);
    if position < before.len() {
        lemma_bands_element(bands, section, (count - 1) as nat, position);
    } else {
        let index = (count - 1) as nat;
        let field = position - before.len();
        assert(bands_settings(bands, section, count)[position] == bands[index as int].settings(
            section,
            index,
        )[field]);
    }
}

/// What a store holds for the first `count` bands is what it holds at the keys
/// of those bands.
pub proof fn lemma_bands_read(store: StoreView, section: Section, count: nat)
    requires
        bands_stored(store, section, count) is Some,
    ensures
        store.reads(bands_stored(store, section, count).unwrap()),
    decreases count,
{
    if count > 0 {
        let index = (count - 1) as nat;
        lemma_bands_read(store, section, index);
        Band::lemma_stored(store, section, index);
        store.lemma_reads_concat(
            bands_stored(store, section, index).unwrap(),
            Band::stored(store, section, index).unwrap(),
        );
    }
}

/// A store that holds the first `count` bands accepts their settings.
pub proof fn lemma_bands_accepted(bands: Seq<Band>, section: Section, count: nat, store: StoreView)
    requires
        count <= bands.len(),
        bands_stored(store, section, count) is Some,
    ensures
        store.accepts(bands_settings(bands, section, count)),
    decreases count,
{
    if count > 0 {
        let index = (count - 1) as nat;
        lemma_bands_accepted(bands, section, index, store);
        bands[index as int].lemma_accepted(section, index, store);
        store.lemma_accepts_concat(
            bands_settings(bands, section, index),
            bands[index as int].settings(section, index),
        );
    }
}

/// The settings of the first `count` bands name keys of `section`, no key
/// twice.
pub proof fn lemma_bands_settings(bands: Seq<Band>, section: Section, count: nat)
    requires
        count <= bands.len(),
    ensures
        distinct(bands_settings(bands, section, count)),
        placed(bands_settings(bands, section, count), set![section]),
        forall|k: int|
            0 <= k < bands_settings(bands, section, count).len() ==> is_digit(
                (#[trigger] bands_settings(bands, section, count)[k]).address.key.last(),
            ),
    decreases count,
{
    if count > 0 {
        let index = (count - 1) as nat;
        let before = bands_settings(bands, section, index);
        let last = bands[index as int].settings(section, index);
        let all = before + last;
        lemma_bands_settings(bands, section, index);
        bands[index as int].lemma_settings(section, index);
        assert forall|i: int, j: int| 0 <= i < j < all.len() implies all[i].address
            != all[j].address by {
            if j < before.len() {
            } else if i >= before.len() {
                assert(last[i - before.len()].address != last[j - before.len()].address);
            } else {
                lemma_bands_element(bands, section, index, i);
                let (k, field) = choose|k: nat, field: int|
                    k < index && 0 <= field < bands[k as int].settings(section, k).len()
                        && before[i] == #[trigger] bands[k as int].settings(section, k)[field];
                bands[k as int].lemma_bands_differ(k, bands[index as int], index, section);
                assert(all[j] == last[j - before.len()]);
            }
        }
        assert forall|i: int| 0 <= i < all.len() implies set![section].contains(
            #[trigger] all[i].address.section,
        ) by {
            if i < before.len() {
                assert(all[i] == before[i]);
            } else {
                assert(all[i] == last[i - before.len()]);
            }
        }
        assert forall|k: int| 0 <= k < all.len() implies is_digit(
            (#[trigger] all[k]).address.key.last(),
        ) by {
            if k < before.len() {
                assert(all[k] == before[k]);
            } else {
                assert(all[k] == last[k - before.len()]);
            }
        }
    }
}

/// Reads the first `count` bands of `settings` from `store`.
pub fn read_bands(store: &SettingsStore, settings: &Settings, count: usize) -> (r: Option<
    Vec<Band>,
>)
    ensures
        match r {
            Some(bands) => bands.len() == count && bands_stored(store@, settings@, count as nat)
                == Some(bands_settings(bands@, settings@, count as nat)),
            None => bands_stored(store@, settings@, count as nat) is None,
        },
{
    let mut bands: Vec<Band> = Vec::new();
    let mut index: usize = 0;
    while index < count
        invariant
            index <= count,
            bands.len() == index,
            bands_stored(store@, settings@, index as nat) == Some(
                bands_settings(bands@, settings@, index as nat),
            ),
        decreases count - index,
    {
        let ghost before = bands@;
        match Band::read(store, settings, index) {
            Some(band) => {
                bands.push(band);
                proof {
                    lemma_bands_settings_prefix(before, bands@, settings@, index as nat);
                }
            },
            None => {
                proof {
                    lemma_bands_stored(store@, settings@, count as nat);
                }
                return None;
            },
        }
        index += 1;
    }
    Some(bands)
}

/// Hands every band of `bands` to its keys in `settings`, band after band.
pub fn apply_bands(bands: &Vec<Band>, store: &mut SettingsStore, settings: &Settings)
    requires
        bands_stored(old(store)@, settings@, bands.len() as nat) is Some,
    ensures
        final(store)@ == old(store)@.apply(bands_settings(bands@, settings@, bands.len() as nat)),
        forall|address: Address, kind: Kind| #[trigger]
            final(store)@.holds(address, kind) == old(store)@.holds(address, kind),
{
    let mut index: usize = 0;
    proof {
        lemma_bands_stored(old(store)@, settings@, bands.len() as nat);
    }
    while index < bands.len()
        invariant
            index <= bands.len(),
            store@ == old(store)@.apply(bands_settings(bands@, settings@, index as nat)),
            forall|address: Address, kind: Kind| #[trigger]
                store@.holds(address, kind) == old(store)@.holds(address, kind),
            forall|i: nat|
                i < bands.len() ==> (#[trigger] Band::stored(old(store)@, settings@, i)) is Some,
        decreases bands.len() - index,
    {
        assert(Band::stored(old(store)@, settings@, index as nat) is Some);
        bands[index].apply(store, settings, index);
        proof {
            old(store)@.lemma_apply_concat(
                bands_settings(bands@, settings@, index as nat),
                bands@[index as int].settings(settings@, index as nat),
            );
        }
        index += 1;
    }
}

/// Parameters of the crystalizer.
#[derive(Clone, Debug)]
pub struct Crystalizer {
    pub state: bool,
    pub aggressive: bool,
    pub input_gain: Double,
    pub output_gain: Double,
    /// The bands, lowest first: `BANDS` of them in a well-formed record.
    pub bands: Vec<Band>,
}

impl Crystalizer {
    /// Where the keys of this record live.
    pub open spec fn section() -> Section {
        Section {
            schema: "com.github.wwmm.pulseeffects.crystalizer"@,
            path: "/com/github/wwmm/pulseeffects/sinkinputs/crystalizer/"@,
        }
    }

    /// Whether the record has as many bands as the effect.
    pub open spec fn wf(&self) -> bool {
        self.bands.len() == BANDS
    }

    /// The fields outside the bands as the settings they stand for.
    pub open spec fn own_settings(&self) -> Seq<Setting> {
        seq![
            Setting { address: Self::section().at("state"@), value: VariantView::Boolean(self.state) },
            Setting {
                address: Self::section().at("aggressive"@),
                value: VariantView::Boolean(self.aggressive),
            },
            Setting {
                address: Self::section().at("input-gain"@),
                value: VariantView::Double(self.input_gain.bits),
            },
            Setting {
                address: Self::section().at("output-gain"@),
                value: VariantView::Double(self.output_gain.bits),
            },
        ]
    }

    /// The record as the settings it stands for, in the order in which they
    /// are written: its own fields, then band after band.
    pub open spec fn settings(&self) -> Seq<Setting> {
        self.own_settings() + bands_settings(self.bands@, Self::section(), self.bands.len() as nat)
    }

    /// The settings that `store` holds for this record, or `None` where a key
    /// is missing or of another type.
    pub open spec fn stored(store: StoreView) -> Option<Seq<Setting>> {
        if store.holds(Self::section().at("state"@), Kind::Boolean)
            && store.holds(Self::section().at("aggressive"@), Kind::Boolean)
            && store.holds(Self::section().at("input-gain"@), Kind::Double)
            && store.holds(Self::section().at("output-gain"@), Kind::Double)
            && bands_stored(store, Self::section(), BANDS as nat) is Some
        {
            Some(
                seq![
                    store.setting(Self::section().at("state"@)),
                    store.setting(Self::section().at("aggressive"@)),
                    store.setting(Self::section().at("input-gain"@)),
                    store.setting(Self::section().at("output-gain"@)),
                ] + bands_stored(store, Self::section(), BANDS as nat).unwrap(),
            )
        } else {
            None
        }
    }

    /// What a store holds for the record is what it holds at the keys of the
    /// record.
    pub proof fn lemma_stored(store: StoreView)
        requires
            Self::stored(store) is Some,
        ensures
            store.reads(Self::stored(store).unwrap()),
    {
        let own = seq![
            store.setting(Self::section().at("state"@)),
            store.setting(Self::section().at("aggressive"@)),
            store.setting(Self::section().at("input-gain"@)),
            store.setting(Self::section().at("output-gain"@)),
        ];
        assert(store.reads(own));
        lemma_bands_read(store, Self::section(), BANDS as nat);
        store.lemma_reads_concat(own, bands_stored(store, Self::section(), BANDS as nat).unwrap());
    }

    /// A store that holds the record accepts the settings of one with all its
    /// bands.
    pub proof fn lemma_accepted(&self, store: StoreView)
        requires
            self.wf(),
            Self::stored(store) is Some,
        ensures
            store.accepts(self.settings()),
    {
        lemma_bands_accepted(self.bands@, Self::section(), BANDS as nat, store);
        store.lemma_accepts_concat(
            self.own_settings(),
            bands_settings(self.bands@, Self::section(), BANDS as nat),
        );
    }

    /// The settings of a record with all its bands name keys of its section,
    /// no key twice.
    pub proof fn lemma_settings(&self)
        requires
            self.wf(),
        ensures
            distinct(self.settings()),
            placed(self.settings(), set![Self::section()]),
    {
        reveal_strlit("state");
        reveal_strlit("aggressive");
        reveal_strlit("input-gain");
        reveal_strlit("output-gain");
        assert("state"@.len() == 5 && "state"@[4] == 'e');
        assert("aggressive"@.len() == 10 && "aggressive"@[0] == 'a' && "aggressive"@[9] == 'e');
        assert("input-gain"@.len() == 10 && "input-gain"@[0] == 'i' && "input-gain"@[9] == 'n');
        assert("output-gain"@.len() == 11 && "output-gain"@[10] == 'n');
        let own = self.own_settings();
        let bands = bands_settings(self.bands@, Self::section(), BANDS as nat);
        let all = own + bands;
        lemma_bands_settings(self.bands@, Self::section(), BANDS as nat);
        assert forall|i: int, j: int| 0 <= i < j < all.len() implies all[i].address
            != all[j].address by {
            if j < own.len() {
            } else if i >= own.len() {
                assert(bands[i - own.len()].address != bands[j - own.len()].address);
            } else {
                assert(is_digit(bands[j - own.len()].address.key.last()));
                assert(!is_digit(own[i].address.key.last()));
            }
        }
        assert forall|i: int| 0 <= i < all.len() implies set![Self::section()].contains(
            #[trigger] all[i].address.section,
        ) by {
            if i >= own.len() {
                assert(all[i] == bands[i - own.len()]);
            }
        }
    }

    /// The mark of the section of this record.
    pub proof fn lemma_mark()
        ensures
            mark(Self::section()) == (53nat, 'r', 'z', 'l'),
    {
        reveal_strlit("/com/github/wwmm/pulseeffects/sinkinputs/crystalizer/");
    }
    /// A handle on the section where the keys of this record live.
    pub fn location() -> (r: Settings)
        ensures
            r@ == Self::section(),
    {
        Settings::with_path(
            "com.github.wwmm.pulseeffects.crystalizer",
            "/com/github/wwmm/pulseeffects/sinkinputs/crystalizer/",
        )
    }

    /// A store that holds the same keys with the same types holds the record
    /// alike.
    pub proof fn lemma_stays_stored(before: StoreView, after: StoreView)
        requires
            forall|address: Address, kind: Kind| #[trigger]
                after.holds(address, kind) == before.holds(address, kind),
        ensures
            Self::stored(after) is Some == Self::stored(before) is Some,
    {
        lemma_bands_stay_stored(before, after, Self::section(), BANDS as nat);
    }

    /// Whether the record has as many bands as the effect.
    pub fn is_well_formed(&self) -> (r: bool)
        ensures
            r == self.wf(),
    {
        self.bands.len() == BANDS
    }

    /// Reads the record from `store`.
    pub fn read(store: &SettingsStore) -> (r: Option<Crystalizer>)
        ensures
            match r {
                Some(record) => record.wf() && Self::stored(store@) == Some(record.settings()),
                None => Self::stored(store@) is None,
            },
    {
        let settings = Self::location();
        let record = Crystalizer {
            state: settings.get_boolean(store, "state")?,
            aggressive: settings.get_boolean(store, "aggressive")?,
            input_gain: settings.get_double(store, "input-gain")?,
            output_gain: settings.get_double(store, "output-gain")?,
            bands: read_bands(store, &settings, BANDS)?,
        };
        assert(Self::stored(store@).unwrap() =~= record.settings());
        Some(record)
    }

    /// Handing these settings to a store is handing them over one after
    /// another.
    pub proof fn lemma_applied(&self, store: StoreView)
        ensures
            store.apply(self.own_settings()) == store.update(self.own_settings()[0]).update(
                self.own_settings()[1],
            ).update(self.own_settings()[2]).update(self.own_settings()[3]),
    {
        store.lemma_apply_steps(self.own_settings());
    }

    /// Hands every field to its key: a key is written only where its value
    /// would change.
    pub fn apply(&self, store: &mut SettingsStore)
        requires
            self.wf(),
            Self::stored(old(store)@) is Some,
        ensures
            final(store)@ == old(store)@.apply(self.settings()),
            forall|address: Address, kind: Kind| #[trigger]
                final(store)@.holds(address, kind) == old(store)@.holds(address, kind),
    {
        let settings = Self::location();
        update_key(store, &settings, "state", Variant::Boolean(self.state));
        update_key(store, &settings, "aggressive", Variant::Boolean(self.aggressive));
        update_key(store, &settings, "input-gain", Variant::Double(self.input_gain));
        update_key(store, &settings, "output-gain", Variant::Double(self.output_gain));
        proof {
            lemma_bands_stay_stored(old(store)@, store@, settings@, BANDS as nat);
        }
        apply_bands(&self.bands, store, &settings);
        proof {
            self.lemma_applied(old(store)@);
            old(store)@.lemma_apply_concat(
                self.own_settings(),
                bands_settings(self.bands@, Self::section(), self.bands.len() as nat),
            );
        }
    }
}

} // verus!

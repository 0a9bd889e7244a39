//! The spectrum analyzer's display settings, shared by the two directions,
//! and the printed form of its colours.

use crate::presets::common::{update_key, update_string_key};
use crate::settings::{
    distinct, placed, Address, Double, Kind, Section, Setting, Settings, SettingsStore, StoreView,
    Variant, VariantView,
};
use crate::text::{chars_of, replace, replace_all, split, split_at, texts};
use vstd::prelude::*;

verus! {

/// The components of a colour that the store prints as a bracketed list:
/// brackets and blanks are taken out, and what is left is split at the commas.
pub open spec fn components(printed: Seq<char>) -> Seq<Seq<char>> {
    split(
        replace_all(replace_all(replace_all(printed, "["@, ""@), "]"@, ""@), " "@, ""@),
        ',',
    )
}

/// The components of a colour that the store prints as a bracketed list.
pub fn color_components(printed: &str) -> (r: Vec<String>)
    ensures
        texts(r@) == components(printed@),
{
    let nothing = chars_of("");
    let text = chars_of(printed);
    let text = replace(&text, &chars_of("["), &nothing);
    let text = replace(&text, &chars_of("]"), &nothing);
    let text = replace(&text, &chars_of(" "), &nothing);
    split_at(&text, ',')
}

/// The components one after another, with a comma and a blank between each
/// two of them.
pub open spec fn listed(components: Seq<Seq<char>>) -> Seq<char>
    decreases components.len(),
{
    if components.len() == 0 {
        Seq::empty()
    } else if components.len() == 1 {
        components[0]
    } else {
        listed(components.drop_last()) + seq![',', ' '] + components.last()
    }
}

/// A colour as the store prints it: its components in brackets, with a comma
/// and a blank between each two of them.
pub open spec fn printed(components: Seq<Seq<char>>) -> Seq<char> {
    seq!['['] + listed(components) + seq![']']
}

/// The printed form of the colour with the given components.
pub fn printed_color(components: &Vec<String>) -> (r: String)
    ensures
        r@ == printed(texts(components@)),
{
    let mut r = String::new();
    r.push('[');
    let ghost start = r@;
    let mut i: usize = 0;
    assert(texts(components@).take(0) =~= Seq::<Seq<char>>::empty());
    assert(start + listed(texts(components@).take(0)) =~= start);
    while i < components.len()
        invariant
            i <= components.len(),
            start == seq!['['],
            r@ == start + listed(texts(components@).take(i as int)),
        decreases components.len() - i,
    {
        let ghost before = texts(components@).take(i as int);
        let ghost after = texts(components@).take(i + 1);
        assert(after.drop_last() =~= before);
        assert(after.last() == components[i as int]@);
        if i > 0 {
            r.push(',');
            r.push(' ');
        }
        r.append(components[i].as_str());
        assert(r@ =~= start + listed(after));
        i += 1;
    }
    assert(texts(components@).take(components.len() as int) =~= texts(components@));
    r.push(']');
    r
}

/// Whether a text can be a component of a printed colour: it holds neither
/// a bracket nor a blank nor a comma.
pub open spec fn is_component(text: Seq<char>) -> bool {
    forall|i: int|
        0 <= i < text.len() ==> text[i] != '[' && text[i] != ']' && text[i] != ' ' && text[i]
            != ','
}

/// `text` without the character `c`.
pub open spec fn without(text: Seq<char>, c: char) -> Seq<char>
    decreases text.len(),
{
    if text.len() == 0 {
        text
    } else if text[0] == c {
        without(text.drop_first(), c)
    } else {
        seq![text[0]] + without(text.drop_first(), c)
    }
}

/// Replacing a character by nothing takes the character out.
proof fn lemma_replace_is_without(text: Seq<char>, c: char)
    ensures
        replace_all(text, seq![c], Seq::<char>::empty()) == without(text, c),
    decreases text.len(),
{
    let from = seq![c];
    let to = Seq::<char>::empty();
    if text.len() > 0 {
        assert(text.skip(1) =~= text.drop_first());
        lemma_replace_is_without(text.drop_first(), c);
        if text[0] == c {
            assert(text.take(1) =~= from);
            assert(to + without(text.drop_first(), c) =~= without(text.drop_first(), c));
        } else {
            assert(text.take(1)[0] != from[0]);
        }
    }
}

/// Taking a character out of two texts in a row is taking it out of each.
proof fn lemma_without_concat(a: Seq<char>, b: Seq<char>, c: char)
    ensures
        without(a + b, c) == without(a, c) + without(b, c),
    decreases a.len(),
{
    if a.len() == 0 {
        assert(a + b =~= b);
        assert(without(a, c) + without(b, c) =~= without(b, c));
    } else {
        assert((a + b).drop_first() =~= a.drop_first() + b);
        lemma_without_concat(a.drop_first(), b, c);
        if a[0] == c {
        } else {
            assert(seq![a[0]] + (without(a.drop_first(), c) + without(b, c)) =~= (seq![a[0]]
                + without(a.drop_first(), c)) + without(b, c));
        }
    }
}

/// A text that does not hold a character stays as it is when the character
/// is taken out.
proof fn lemma_without_absent(text: Seq<char>, c: char)
    requires
        forall|i: int| 0 <= i < text.len() ==> text[i] != c,
    ensures
        without(text, c) == text,
    decreases text.len(),
{
    if text.len() > 0 {
        lemma_without_absent(text.drop_first(), c);
        assert(seq![text[0]] + text.drop_first() =~= text);
    }
}

/// A text without brackets and blanks.
pub open spec fn stripped(text: Seq<char>) -> Seq<char> {
    without(without(without(text, '['), ']'), ' ')
}

/// Stripping two texts in a row is stripping each.
proof fn lemma_stripped_concat(a: Seq<char>, b: Seq<char>)
    ensures
        stripped(a + b) == stripped(a) + stripped(b),
{
    lemma_without_concat(a, b, '[');
    lemma_without_concat(without(a, '['), without(b, '['), ']');
    lemma_without_concat(without(without(a, '['), ']'), without(without(b, '['), ']'), ' ');
}

/// A component has nothing to strip.
proof fn lemma_stripped_component(text: Seq<char>)
    requires
        is_component(text),
    ensures
        stripped(text) == text,
{
    lemma_without_absent(text, '[');
    lemma_without_absent(text, ']');
    lemma_without_absent(text, ' ');
}

/// The components one after another, with a comma between each two of them.
pub open spec fn chained(components: Seq<Seq<char>>) -> Seq<char>
    decreases components.len(),
{
    if components.len() == 0 {
        Seq::empty()
    } else if components.len() == 1 {
        components[0]
    } else {
        chained(components.drop_last()).push(',') + components.last()
    }
}

/// Stripped, a list of components has only the commas left between them.
proof fn lemma_stripped_listed(list: Seq<Seq<char>>)
    requires
        forall|i: int| 0 <= i < list.len() ==> is_component(#[trigger] list[i]),
    ensures
        stripped(listed(list)) == chained(list),
    decreases list.len(),
{
    reveal_with_fuel(without, 3);
    if list.len() == 0 {
    } else if list.len() == 1 {
        lemma_stripped_component(list[0]);
    } else {
        let before = list.drop_last();
        assert forall|i: int| 0 <= i < before.len() implies is_component(#[trigger] before[i]) by {
            assert(before[i] == list[i]);
        }
        lemma_stripped_listed(before);
        lemma_stripped_component(list.last());
        let between = seq![',', ' '];
        lemma_stripped_concat(listed(before) + between, list.last());
        lemma_stripped_concat(listed(before), between);
        assert(between.drop_first() =~= seq![' ']);
        assert(seq![' '].drop_first() =~= Seq::<char>::empty());
        assert(without(between, '[') =~= between);
        assert(without(between, ']') =~= between);
        assert(without(between, ' ') =~= seq![',']);
        assert(stripped(between) == seq![',']);
        assert(chained(before) + seq![','] =~= chained(before).push(','));
    }
}

/// Splitting a text that is followed by a text without separator gives the
/// pieces of the first, the last of them lengthened by the second.
proof fn lemma_split_append(a: Seq<char>, b: Seq<char>, separator: char)
    requires
        forall|i: int| 0 <= i < b.len() ==> b[i] != separator,
    ensures
        split(a, separator).len() > 0,
        split(a + b, separator) == split(a, separator).drop_last().push(
            split(a, separator).last() + b,
        ),
    decreases b.len(),
{
    lemma_split_some(a, separator);
    let pieces = split(a, separator);
    if b.len() == 0 {
        assert(a + b =~= a);
        assert(pieces.last() + b =~= pieces.last());
        assert(pieces.drop_last().push(pieces.last()) =~= pieces);
    } else {
        let start = b.drop_last();
        lemma_split_append(a, start, separator);
        assert((a + b).drop_last() =~= a + start);
        assert((a + b).last() == b.last());
        let shorter = pieces.drop_last().push(pieces.last() + start);
        assert(shorter.drop_last() =~= pieces.drop_last());
        assert((pieces.last() + start).push(b.last()) =~= pieces.last() + b);
    }
}

/// A text has at least one piece.
proof fn lemma_split_some(text: Seq<char>, separator: char)
    ensures
        split(text, separator).len() > 0,
    decreases text.len(),
{
    if text.len() > 0 {
        lemma_split_some(text.drop_last(), separator);
    }
}

/// Components with commas between them are split into the components.
proof fn lemma_split_chained(list: Seq<Seq<char>>)
    requires
        list.len() > 0,
        forall|i: int| 0 <= i < list.len() ==> is_component(#[trigger] list[i]),
    ensures
        split(chained(list), ',') == list,
    decreases list.len(),
{
    let none = Seq::<char>::empty();
    if list.len() == 1 {
        lemma_split_append(none, list[0], ',');
        assert(none + list[0] =~= list[0]);
        assert(split(none, ',') =~= seq![none]);
        assert(seq![none].drop_last().push(none + list[0]) =~= list);
    } else {
        let before = list.drop_last();
        assert forall|i: int| 0 <= i < before.len() implies is_component(#[trigger] before[i]) by {
            assert(before[i] == list[i]);
        }
        lemma_split_chained(before);
        let text = chained(before).push(',');
        assert(text.drop_last() =~= chained(before));
        assert(split(text, ',') == before.push(none));
        lemma_split_append(text, list.last(), ',');
        assert(before.push(none).drop_last() =~= before);
        assert(none + list.last() =~= list.last());
        assert(before.push(list.last()) =~= list);
    }
}

/// A printed colour has its components again: the components of the printed
/// form of a list are the list, where the list is not empty and none of its
/// texts holds a bracket, a blank or a comma.
pub proof fn lemma_components_of_printed(list: Seq<Seq<char>>)
    requires
        list.len() > 0,
        forall|i: int| 0 <= i < list.len() ==> is_component(#[trigger] list[i]),
    ensures
        components(printed(list)) == list,
{
    reveal_strlit("[");
    reveal_strlit("]");
    reveal_strlit(" ");
    reveal_strlit("");
    assert("["@ =~= seq!['[']);
    assert("]"@ =~= seq![']']);
    assert(" "@ =~= seq![' ']);
    assert(""@ =~= Seq::<char>::empty());
    let text = printed(list);
    lemma_replace_is_without(text, '[');
    lemma_replace_is_without(without(text, '['), ']');
    lemma_replace_is_without(without(without(text, '['), ']'), ' ');
    reveal_with_fuel(without, 2);
    lemma_stripped_concat(seq!['['] + listed(list), seq![']']);
    lemma_stripped_concat(seq!['['], listed(list));
    lemma_stripped_listed(list);
    assert(seq!['['].drop_first() =~= Seq::<char>::empty());
    assert(seq![']'].drop_first() =~= Seq::<char>::empty());
    assert(stripped(seq!['[']) =~= Seq::<char>::empty());
    assert(stripped(seq![']']) =~= Seq::<char>::empty());
    assert(stripped(text) =~= chained(list));
    lemma_split_chained(list);
}

/// Display settings of the spectrum analyzer.
#[derive(Clone, Debug)]
pub struct Spectrum {
    pub show: bool,
    pub n_points: i32,
    pub height: i32,
    pub use_custom_color: bool,
    pub fill: bool,
    pub show_bar_border: bool,
    pub scale: Double,
    pub exponent: Double,
    pub sampling_freq: i32,
    pub line_width: Double,
    pub style: String,
    /// The colour as the store prints it: its components in brackets.
    pub color: String,
    /// The gradient colour as the store prints it.
    pub gradient_color: String,
}

impl Spectrum {
    /// Where the keys of this record live.
    pub open spec fn section() -> Section {
        Section {
            schema: "com.github.wwmm.pulseeffects.spectrum"@,
            path: Seq::empty(),
        }
    }

    /// The record as the settings it stands for, in the order in which they
    /// are written.
    pub open spec fn settings(&self) -> Seq<Setting> {
        seq![
            Setting {
                address: Self::section().at("show"@),
                value: VariantView::Boolean(self.show),
            },
            Setting {
                address: Self::section().at("n-points"@),
                value: VariantView::Int32(self.n_points),
            },
            Setting {
                address: Self::section().at("height"@),
                value: VariantView::Int32(self.height),
            },
            Setting {
                address: Self::section().at("use-custom-color"@),
                value: VariantView::Boolean(self.use_custom_color),
            },
            Setting {
                address: Self::section().at("fill"@),
                value: VariantView::Boolean(self.fill),
            },
            Setting {
                address: Self::section().at("show-bar-border"@),
                value: VariantView::Boolean(self.show_bar_border),
            },
            Setting {
                address: Self::section().at("scale"@),
                value: VariantView::Double(self.scale.bits),
            },
            Setting {
                address: Self::section().at("exponent"@),
                value: VariantView::Double(self.exponent.bits),
            },
            Setting {
                address: Self::section().at("sampling-freq"@),
                value: VariantView::Int32(self.sampling_freq),
            },
            Setting {
                address: Self::section().at("line-width"@),
                value: VariantView::Double(self.line_width.bits),
            },
            Setting { address: Self::section().at("type"@), value: VariantView::Text(self.style@) },
            Setting {
                address: Self::section().at("color"@),
                value: VariantView::Other(self.color@),
            },
            Setting {
                address: Self::section().at("gradient-color"@),
                value: VariantView::Other(self.gradient_color@),
            },
        ]
    }

    /// The settings that `store` holds for this record, or `None` where a key
    /// is missing or of another type.
    pub open spec fn stored(store: StoreView) -> Option<Seq<Setting>> {
        if store.holds(Self::section().at("show"@), Kind::Boolean)
            && store.holds(Self::section().at("n-points"@), Kind::Int32)
            && store.holds(Self::section().at("height"@), Kind::Int32)
            && store.holds(Self::section().at("use-custom-color"@), Kind::Boolean)
            && store.holds(Self::section().at("fill"@), Kind::Boolean)
            && store.holds(Self::section().at("show-bar-border"@), Kind::Boolean)
            && store.holds(Self::section().at("scale"@), Kind::Double)
            && store.holds(Self::section().at("exponent"@), Kind::Double)
            && store.holds(Self::section().at("sampling-freq"@), Kind::Int32)
            && store.holds(Self::section().at("line-width"@), Kind::Double)
            && store.holds(Self::section().at("type"@), Kind::Text)
            && store.holds(Self::section().at("color"@), Kind::Other)
            && store.holds(Self::section().at("gradient-color"@), Kind::Other)
        {
            Some(
                seq![
                    store.setting(Self::section().at("show"@)),
                    store.setting(Self::section().at("n-points"@)),
                    store.setting(Self::section().at("height"@)),
                    store.setting(Self::section().at("use-custom-color"@)),
                    store.setting(Self::section().at("fill"@)),
                    store.setting(Self::section().at("show-bar-border"@)),
                    store.setting(Self::section().at("scale"@)),
                    store.setting(Self::section().at("exponent"@)),
                    store.setting(Self::section().at("sampling-freq"@)),
                    store.setting(Self::section().at("line-width"@)),
                    store.setting(Self::section().at("type"@)),
                    store.setting(Self::section().at("color"@)),
                    store.setting(Self::section().at("gradient-color"@)),
                ],
            )
        } else {
            None
        }
    }

    /// A handle on the section where the keys of this record live.
    pub fn location() -> (r: Settings)
        ensures
            r@ == Self::section(),
    {
        Settings::new("com.github.wwmm.pulseeffects.spectrum")
    }

    /// What a store holds for the record is what it holds at the keys of the
    /// record.
    pub proof fn lemma_stored(store: StoreView)
        requires
            Self::stored(store) is Some,
        ensures
            store.reads(Self::stored(store).unwrap()),
    {
    }

    /// A store that holds the record accepts its settings.
    pub proof fn lemma_accepted(&self, store: StoreView)
        requires
            Self::stored(store) is Some,
        ensures
            store.accepts(self.settings()),
    {
    }

    /// The settings of the record name keys of its section, no key twice.
    pub proof fn lemma_settings(&self)
        ensures
            distinct(self.settings()),
            placed(self.settings(), set![Self::section()]),
    {
        reveal_strlit("show");
        reveal_strlit("n-points");
        reveal_strlit("height");
        reveal_strlit("use-custom-color");
        reveal_strlit("fill");
        reveal_strlit("show-bar-border");
        reveal_strlit("scale");
        reveal_strlit("exponent");
        reveal_strlit("sampling-freq");
        reveal_strlit("line-width");
        reveal_strlit("type");
        reveal_strlit("color");
        reveal_strlit("gradient-color");
        assert("show"@.len() == 4 && "show"@[0] == 's');
        assert("n-points"@.len() == 8 && "n-points"@[0] == 'n');
        assert("height"@.len() == 6);
        assert("use-custom-color"@.len() == 16);
        assert("fill"@.len() == 4 && "fill"@[0] == 'f');
        assert("show-bar-border"@.len() == 15);
        assert("scale"@.len() == 5 && "scale"@[0] == 's');
        assert("exponent"@.len() == 8);
        assert("sampling-freq"@.len() == 13);
        assert("line-width"@.len() == 10);
        assert("type"@.len() == 4);
        assert("color"@.len() == 5);
        assert("gradient-color"@.len() == 14);
    }

    /// A store that holds the same keys with the same types holds the record
    /// alike.
    pub proof fn lemma_stays_stored(before: StoreView, after: StoreView)
        requires
            forall|address: Address, kind: Kind| #[trigger]
                after.holds(address, kind) == before.holds(address, kind),
        ensures
            Self::stored(after) is Some == Self::stored(before) is Some,
    {
    }

    /// Whether the record is what `store` holds for it.
    pub open spec fn taken_from(&self, store: StoreView) -> bool {
        Self::stored(store) == Some(self.settings())
    }

    /// Reads the record from `store`.
    pub fn read(store: &SettingsStore) -> (r: Option<Spectrum>)
        ensures
            match r {
                Some(record) => record.taken_from(store@),
                None => Self::stored(store@) is None,
            },
    {
        let settings = Self::location();
        let record = Spectrum {
            show: settings.get_boolean(store, "show")?,
            n_points: settings.get_int(store, "n-points")?,
            height: settings.get_int(store, "height")?,
            use_custom_color: settings.get_boolean(store, "use-custom-color")?,
            fill: settings.get_boolean(store, "fill")?,
            show_bar_border: settings.get_boolean(store, "show-bar-border")?,
            scale: settings.get_double(store, "scale")?,
            exponent: settings.get_double(store, "exponent")?,
            sampling_freq: settings.get_int(store, "sampling-freq")?,
            line_width: settings.get_double(store, "line-width")?,
            style: settings.get_string(store, "type")?,
            color: settings.get_printed(store, "color")?,
            gradient_color: settings.get_printed(store, "gradient-color")?,
        };
        assert(Self::stored(store@).unwrap() =~= record.settings());
        Some(record)
    }

    /// Handing these settings to a store is handing them over one after
    /// another.
    pub proof fn lemma_applied(&self, store: StoreView)
        ensures
            store.apply(self.settings()) == store.update(self.settings()[0])
                .update(self.settings()[1]).update(self.settings()[2]).update(self.settings()[3])
                .update(self.settings()[4]).update(self.settings()[5]).update(self.settings()[6])
                .update(self.settings()[7]).update(self.settings()[8]).update(self.settings()[9])
                .update(self.settings()[10]).update(self.settings()[11]).update(self.settings()[12]),
    {
        store.lemma_apply_steps(self.settings());
    }

    /// Hands every field to its key: a key is written only where its value
    /// would change.
    pub fn apply(&self, store: &mut SettingsStore)
        requires
            Self::stored(old(store)@) is Some,
        ensures
            final(store)@ == old(store)@.apply(self.settings()),
            forall|address: Address, kind: Kind| #[trigger]
                final(store)@.holds(address, kind) == old(store)@.holds(address, kind),
    {
        let settings = Self::location();
        update_key(store, &settings, "show", Variant::Boolean(self.show));
        update_key(store, &settings, "n-points", Variant::Int32(self.n_points));
        update_key(store, &settings, "height", Variant::Int32(self.height));
        update_key(store, &settings, "use-custom-color", Variant::Boolean(self.use_custom_color));
        update_key(store, &settings, "fill", Variant::Boolean(self.fill));
        update_key(store, &settings, "show-bar-border", Variant::Boolean(self.show_bar_border));
        update_key(store, &settings, "scale", Variant::Double(self.scale));
        update_key(store, &settings, "exponent", Variant::Double(self.exponent));
        update_key(store, &settings, "sampling-freq", Variant::Int32(self.sampling_freq));
        update_key(store, &settings, "line-width", Variant::Double(self.line_width));
        update_string_key(store, &settings, "type", &self.style);
        update_key(store, &settings, "color", Variant::Other(self.color.clone()));
        update_key(store, &settings, "gradient-color", Variant::Other(self.gradient_color.clone()));
        proof {
            self.lemma_applied(old(store)@);
        }
    }
}

} // verus!

//! On-chain NFT metadata (the OpenSea metadata standard) shared by both
//! NFT collections, and its JSON form.
use vstd::prelude::*;
use crate::text::{json_string, push_char, push_json_string, lemma_concat_regroup};

verus! {

/// One attribute of an NFT.
#[derive(Clone, Debug, PartialEq)]
pub struct Trait {
    pub display_type: Option<String>,
    pub trait_type: String,
    pub value: String,
}

/// NFT metadata; see <https://docs.opensea.io/docs/metadata-standards>.
#[derive(Clone, Debug, PartialEq)]
pub struct Metadata {
    pub name: Option<String>,
    pub image: Option<String>,
    pub description: Option<String>,
    pub attributes: Option<Vec<Trait>>,
    pub image_data: Option<String>,
    pub external_url: Option<String>,
    pub background_color: Option<String>,
    pub animation_url: Option<String>,
    pub youtube_url: Option<String>,
}

/// The mathematical value of a [`Trait`].
pub struct TraitView {
    pub display_type: Option<Seq<char>>,
    pub trait_type: Seq<char>,
    pub value: Seq<char>,
}

/// The mathematical value of a [`Metadata`].
pub struct MetadataView {
    pub name: Option<Seq<char>>,
    pub image: Option<Seq<char>>,
    pub description: Option<Seq<char>>,
    pub attributes: Option<Seq<TraitView>>,
    pub image_data: Option<Seq<char>>,
    pub external_url: Option<Seq<char>>,
    pub background_color: Option<Seq<char>>,
    pub animation_url: Option<Seq<char>>,
    pub youtube_url: Option<Seq<char>>,
}

/// The value of an optional string.
pub open spec fn opt_str(o: Option<String>) -> Option<Seq<char>> {
    match o {
        Some(s) => Some(s@),
        None => None,
    }
}

impl View for Trait {
    type V = TraitView;

    open spec fn view(&self) -> TraitView {
        TraitView {
            display_type: opt_str(self.display_type),
            trait_type: self.trait_type@,
            value: self.value@,
        }
    }
}

/// The value of a list of traits.
pub open spec fn traits_view(v: Seq<Trait>) -> Seq<TraitView> {
    v.map_values(|t: Trait| t@)
}

impl View for Metadata {
    type V = MetadataView;

    open spec fn view(&self) -> MetadataView {
        MetadataView {
            name: opt_str(self.name),
            image: opt_str(self.image),
            description: opt_str(self.description),
            attributes: match self.attributes {
                Some(v) => Some(traits_view(v@)),
                None => None,
            },
            image_data: opt_str(self.image_data),
            external_url: opt_str(self.external_url),
            background_color: opt_str(self.background_color),
            animation_url: opt_str(self.animation_url),
            youtube_url: opt_str(self.youtube_url),
        }
    }
}

/// The value of an optional metadata extension.
pub open spec fn extension_view(e: Option<Metadata>) -> Option<MetadataView> {
    match e {
        Some(m) => Some(m@),
        None => None,
    }
}

/// Metadata with every field empty.
pub open spec fn empty_metadata() -> MetadataView {
    MetadataView {
        name: None,
        image: None,
        description: None,
        attributes: None,
        image_data: None,
        external_url: None,
        background_color: None,
        animation_url: None,
        youtube_url: None,
    }
}

impl Default for Metadata {
    fn default() -> (m: Metadata)
        ensures
            m@ == empty_metadata(),
    {
        Metadata {
            name: None,
            image: None,
            description: None,
            attributes: None,
            image_data: None,
            external_url: None,
            background_color: None,
            animation_url: None,
            youtube_url: None,
        }
    }
}

/// A trait with no display type.
pub open spec fn plain_trait(trait_type: Seq<char>, value: Seq<char>) -> TraitView {
    TraitView { display_type: None, trait_type, value }
}

/// Metadata that sets only a name, an image, a description and three traits,
/// the shape of every token these collections mint.
pub open spec fn collection_item(
    name: Seq<char>,
    image: Seq<char>,
    description: Seq<char>,
    first: TraitView,
    second: TraitView,
    third: TraitView,
) -> MetadataView {
    MetadataView {
        name: Some(name),
        image: Some(image),
        description: Some(description),
        attributes: Some(seq![first, second, third]),
        ..empty_metadata()
    }
}

/// Builds a trait with no display type.
pub fn make_trait(trait_type: &str, value: &str) -> (t: Trait)
    ensures
        t@ == plain_trait(trait_type@, value@),
{
    Trait { display_type: None, trait_type: trait_type.to_owned(), value: value.to_owned() }
}

/// Builds the metadata of a collection item.
pub fn make_item(name: &str, image: &str, description: &str, first: Trait, second: Trait, third: Trait) -> (m: Metadata)
    ensures
        m@ == collection_item(name@, image@, description@, first@, second@, third@),
{
    let attributes = vec![first, second, third];
    let m = Metadata {
        name: Some(name.to_owned()),
        image: Some(image.to_owned()),
        description: Some(description.to_owned()),
        attributes: Some(attributes),
        image_data: None,
        external_url: None,
        background_color: None,
        animation_url: None,
        youtube_url: None,
    };
    assert(traits_view(attributes@) =~= seq![first@, second@, third@]);
    m
}


/// JSON for an optional string: `null` or a string literal.
pub open spec fn json_opt_string(o: Option<Seq<char>>) -> Seq<char> {
    match o {
        Some(s) => json_string(s),
        None => "null"@,
    }
}

/// JSON for a trait, its fields in declaration order.
pub open spec fn json_trait(t: TraitView) -> Seq<char> {
    "{\"display_type\":"@ + json_opt_string(t.display_type) + ",\"trait_type\":"@ + json_string(
        t.trait_type,
    ) + ",\"value\":"@ + json_string(t.value) + "}"@
}

/// The comma-separated JSON of a list of traits.
pub open spec fn json_trait_items(ts: Seq<TraitView>) -> Seq<char>
    decreases ts.len(),
{
    if ts.len() == 0 {
        Seq::empty()
    } else if ts.len() == 1 {
        json_trait(ts[0])
    } else {
        json_trait_items(ts.drop_last()) + seq![','] + json_trait(ts.last())
    }
}

/// JSON for an optional list of traits.
pub open spec fn json_opt_traits(o: Option<Seq<TraitView>>) -> Seq<char> {
    match o {
        Some(ts) => seq!['['] + json_trait_items(ts) + seq![']'],
        None => "null"@,
    }
}

/// JSON for metadata, its fields in declaration order.
pub open spec fn json_metadata(m: MetadataView) -> Seq<char> {
    "{\"name\":"@ + json_opt_string(m.name) + ",\"image\":"@ + json_opt_string(m.image)
        + ",\"description\":"@ + json_opt_string(m.description) + ",\"attributes\":"@
        + json_opt_traits(m.attributes) + ",\"image_data\":"@ + json_opt_string(m.image_data)
        + ",\"external_url\":"@ + json_opt_string(m.external_url) + ",\"background_color\":"@
        + json_opt_string(m.background_color) + ",\"animation_url\":"@ + json_opt_string(
        m.animation_url,
    ) + ",\"youtube_url\":"@ + json_opt_string(m.youtube_url) + "}"@
}

/// JSON for an optional metadata extension.
pub open spec fn json_extension(e: Option<MetadataView>) -> Seq<char> {
    match e {
        Some(m) => json_metadata(m),
        None => "null"@,
    }
}

/// Appends the JSON of an optional string.
pub fn push_json_opt_string(out: &mut String, o: &Option<String>)
    ensures
        final(out)@ == old(out)@ + json_opt_string(opt_str(*o)),
{
    match o {
        Some(s) => push_json_string(out, s.as_str()),
        None => out.append("null"),
    }
}

/// Appends the JSON of a trait.
pub fn push_json_trait(out: &mut String, t: &Trait)
    ensures
        final(out)@ == old(out)@ + json_trait(t@),
{
    out.append("{\"display_type\":");
    push_json_opt_string(out, &t.display_type);
    out.append(",\"trait_type\":");
    push_json_string(out, t.trait_type.as_str());
    out.append(",\"value\":");
    push_json_string(out, t.value.as_str());
    out.append("}");
    assert(out@ =~= old(out)@ + json_trait(t@));
}

/// Appends the JSON of an optional list of traits.
pub fn push_json_opt_traits(out: &mut String, o: &Option<Vec<Trait>>)
    ensures
        final(out)@ == old(out)@ + json_opt_traits(
            match *o {
                Some(v) => Some(traits_view(v@)),
                None => None,
            },
        ),
{
    match o {
        None => out.append("null"),
        Some(v) => {
            push_char(out, '[');
            let ghost start = old(out)@.push('[');
            let ghost tv = traits_view(v@);
            assert(tv.take(0) =~= Seq::<TraitView>::empty());
            for i in 0..v.len()
                invariant
                    tv == traits_view(v@),
                    out@ == start + json_trait_items(tv.take(i as int)),
            {
                let ghost before = out@;
                if i > 0 {
                    push_char(out, ',');
                }
                push_json_trait(out, &v[i]);
                assert(tv.take(i + 1).drop_last() =~= tv.take(i as int));
                assert(tv.take(i + 1).last() == v@[i as int]@);
                assert(out@ =~= start + json_trait_items(tv.take(i + 1)));
            }
            assert(tv.take(v.len() as int) =~= tv);
            push_char(out, ']');
            assert(out@ =~= old(out)@ + json_opt_traits(Some(tv)));
        },
    }
}

/// Appends the JSON of metadata.
pub fn push_json_metadata(out: &mut String, m: &Metadata)
    ensures
        final(out)@ == old(out)@ + json_metadata(m@),
{
    broadcast use lemma_concat_regroup;

    out.append("{\"name\":");
    push_json_opt_string(out, &m.name);
    out.append(",\"image\":");
    push_json_opt_string(out, &m.image);
    out.append(",\"description\":");
    push_json_opt_string(out, &m.description);
    out.append(",\"attributes\":");
    push_json_opt_traits(out, &m.attributes);
    out.append(",\"image_data\":");
    push_json_opt_string(out, &m.image_data);
    out.append(",\"external_url\":");
    push_json_opt_string(out, &m.external_url);
    out.append(",\"background_color\":");
    push_json_opt_string(out, &m.background_color);
    out.append(",\"animation_url\":");
    push_json_opt_string(out, &m.animation_url);
    out.append(",\"youtube_url\":");
    push_json_opt_string(out, &m.youtube_url);
    out.append("}");
}

/// Appends the JSON of an optional metadata extension.
pub fn push_json_extension(out: &mut String, e: &Option<Metadata>)
    ensures
        final(out)@ == old(out)@ + json_extension(extension_view(*e)),
{
    match e {
        Some(m) => push_json_metadata(out, m),
        None => out.append("null"),
    }
}

} // verus!

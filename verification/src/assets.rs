//! The asset collector: classifies the files of a directory tree by
//! extension and aggregates them into templates, fonts and opaque binary
//! assets. The walk itself happens outside; this module receives each file as
//! a virtual path plus its bytes and builds the immutable aggregate.
use vstd::prelude::*;

use crate::error::AppError;
use crate::paths::{
    eq_ignore_ascii_case, extension, extension_of, file_name, file_name_of,
    str_eq_ignore_ascii_case,
};
use vstd::utf8::{decode_utf8, valid_utf8};

verus! {

/// The kind of a file, as decided by its extension.
#[derive(Debug, Clone, Copy, PartialEq, Eq, Structural)]
pub enum FileType {
    Font,
    TypstSource,
    Other,
}

/// Recognized font extensions, compared without regard to ASCII case.
pub open spec fn is_font_extension(e: Seq<char>) -> bool {
    ||| eq_ignore_ascii_case(e, "ttf"@)
    ||| eq_ignore_ascii_case(e, "otf"@)
    ||| eq_ignore_ascii_case(e, "woff"@)
    ||| eq_ignore_ascii_case(e, "woff2"@)
}

/// Recognized template extensions, compared without regard to ASCII case.
pub open spec fn is_template_extension(e: Seq<char>) -> bool {
    ||| eq_ignore_ascii_case(e, "typ"@)
    ||| eq_ignore_ascii_case(e, "typst"@)
}

/// The classification of a virtual path: by its extension, while a path
/// without one is opaque.
pub open spec fn file_type_of(p: Seq<char>) -> FileType {
    match extension_of(p) {
        Some(e) => if is_font_extension(e) {
            FileType::Font
        } else if is_template_extension(e) {
            FileType::TypstSource
        } else {
            FileType::Other
        },
        None => FileType::Other,
    }
}

impl FileType {
    /// Determine the [`FileType`] for the provided path by checking the
    /// extension.
    pub fn from_path(path: &str) -> (r: FileType)
        ensures
            r == file_type_of(path@),
    {
        match extension(path) {
            Some(e) => {
                let es = e.as_str();
                if str_eq_ignore_ascii_case(es, "ttf") || str_eq_ignore_ascii_case(es, "otf")
                    || str_eq_ignore_ascii_case(es, "woff") || str_eq_ignore_ascii_case(
                    es,
                    "woff2",
                ) {
                    FileType::Font
                } else if str_eq_ignore_ascii_case(es, "typ") || str_eq_ignore_ascii_case(
                    es,
                    "typst",
                ) {
                    FileType::TypstSource
                } else {
                    FileType::Other
                }
            },
            None => FileType::Other,
        }
    }
}

/// One file handed to the collector: its path relative to the collection
/// root, in slash-separated form, and its raw bytes.
#[derive(Debug)]
pub struct FileEntry {
    pub path: String,
    pub data: Vec<u8>,
}

/// A template source: its virtual path, the final segment of that path
/// (the name a render request uses), and its text.
#[derive(Debug)]
pub struct TemplateSource {
    pub path: String,
    pub name: String,
    pub text: String,
}

/// An opaque binary asset: its virtual path and its raw bytes.
#[derive(Debug)]
pub struct BinaryAsset {
    pub path: String,
    pub data: Vec<u8>,
}

/// A font: its raw bytes and the family name recovered from them. Fonts are
/// addressed by their position in the font sequence, not by path.
#[derive(Debug)]
pub struct FontRecord {
    pub data: Vec<u8>,
    pub family: String,
}

/// Aggregated template sources, binary assets, and fonts discovered on disk.
#[derive(Debug)]
pub struct Assets {
    pub sources: Vec<TemplateSource>,
    pub assets: Vec<BinaryAsset>,
    pub fonts: Vec<FontRecord>,
}

/// Mathematical model of one collector input file.
#[verifier::ext_equal]
pub struct EntryModel {
    pub path: Seq<char>,
    pub data: Seq<u8>,
}

/// Mathematical model of a template source.
#[verifier::ext_equal]
pub struct SourceModel {
    pub path: Seq<char>,
    pub name: Seq<char>,
    pub text: Seq<char>,
}

/// Mathematical model of a binary asset.
#[verifier::ext_equal]
pub struct AssetModel {
    pub path: Seq<char>,
    pub data: Seq<u8>,
}

/// Mathematical model of a font record.
#[verifier::ext_equal]
pub struct FontModel {
    pub data: Seq<u8>,
    pub family: Seq<char>,
}

/// Mathematical model of the whole aggregate.
#[verifier::ext_equal]
pub struct AssetsModel {
    pub sources: Seq<SourceModel>,
    pub assets: Seq<AssetModel>,
    pub fonts: Seq<FontModel>,
}

impl View for FileEntry {
    type V = EntryModel;

    open spec fn view(&self) -> EntryModel {
        EntryModel { path: self.path@, data: self.data@ }
    }
}

impl View for TemplateSource {
    type V = SourceModel;

    open spec fn view(&self) -> SourceModel {
        SourceModel { path: self.path@, name: self.name@, text: self.text@ }
    }
}

impl View for BinaryAsset {
    type V = AssetModel;

    open spec fn view(&self) -> AssetModel {
        AssetModel { path: self.path@, data: self.data@ }
    }
}

impl View for FontRecord {
    type V = FontModel;

    open spec fn view(&self) -> FontModel {
        FontModel { data: self.data@, family: self.family@ }
    }
}

impl View for Assets {
    type V = AssetsModel;

    open spec fn view(&self) -> AssetsModel {
        AssetsModel {
            sources: self.sources@.map_values(|s: TemplateSource| s@),
            assets: self.assets@.map_values(|a: BinaryAsset| a@),
            fonts: self.fonts@.map_values(|f: FontRecord| f@),
        }
    }
}

/// The model of an empty aggregate.
pub open spec fn empty_assets_model() -> AssetsModel {
    AssetsModel { sources: Seq::empty(), assets: Seq::empty(), fonts: Seq::empty() }
}

/// Well-formedness of the aggregate: every source's name is the final
/// segment of its path, every font's family is the one its bytes parse to,
/// and binary asset paths are unique (last write wins on a duplicate).
pub open spec fn assets_model_wf(m: AssetsModel) -> bool {
    &&& forall|i: int|
        0 <= i < m.sources.len() ==> (#[trigger] m.sources[i]).name == file_name_of(
            m.sources[i].path,
        )
    &&& forall|i: int|
        0 <= i < m.fonts.len() ==> parsed_font_family((#[trigger] m.fonts[i]).data) == Some(
            m.fonts[i].family,
        )
    &&& forall|i: int, j: int|
        0 <= i < j < m.assets.len() ==> (#[trigger] m.assets[i]).path != (
        #[trigger] m.assets[j]).path
}

/// What typst recovers from font bytes: the family name of the face at
/// index 0, or nothing when the bytes do not parse as a font face. The parse
/// depends on the bytes alone.
pub uninterp spec fn parsed_font_family(data: Seq<u8>) -> Option<Seq<char>>;

/// Relies on `typst::text::Font::new`, which parses the face at index 0 of
/// the given bytes (`ttf_parser` underneath) and returns nothing when they do
/// not parse, and on `FontInfo::family` for the family name of a parsed
/// face. Both depend on the bytes alone.
#[verifier::external_body]
fn parse_font_family(data: &Vec<u8>) -> (r: Option<String>)
    ensures
        r is Some <==> parsed_font_family(data@) is Some,
        r matches Some(f) ==> parsed_font_family(data@) == Some(f@),
{
    match typst::text::Font::new(typst::foundations::Bytes::new(data.clone()), 0) {
        Some(font) => Some(font.info().family.clone()),
        None => None,
    }
}

/// Relies on `String::from_utf8`, which returns `Ok` exactly when the bytes
/// are valid UTF-8 and then decodes them; validity and decoding are vstd's
/// `valid_utf8` and `decode_utf8`.
#[verifier::external_body]
fn utf8_text(data: &Vec<u8>) -> (r: Option<String>)
    ensures
        r is Some <==> valid_utf8(data@),
        r matches Some(s) ==> s@ == decode_utf8(data@),
{
    match String::from_utf8(data.clone()) {
        Ok(s) => Some(s),
        Err(_) => None,
    }
}

/// Insertion of a binary asset with last-write-wins on an existing path.
pub open spec fn insert_asset_model(
    assets: Seq<AssetModel>,
    path: Seq<char>,
    data: Seq<u8>,
) -> Seq<AssetModel> {
    if exists|i: int| 0 <= i < assets.len() && (#[trigger] assets[i]).path == path {
        let i = choose|i: int| 0 <= i < assets.len() && (#[trigger] assets[i]).path == path;
        assets.update(i, AssetModel { path, data })
    } else {
        assets.push(AssetModel { path, data })
    }
}

/// One step of collection: how a single file, classified by its extension,
/// changes the aggregate. A template whose bytes are not UTF-8 fails the
/// whole collection; a font that does not parse is skipped.
pub open spec fn add_file_model(m: AssetsModel, path: Seq<char>, data: Seq<u8>) -> Option<
    AssetsModel,
> {
    match file_type_of(path) {
        FileType::TypstSource => if valid_utf8(data) {
            Some(
                AssetsModel {
                    sources: m.sources.push(
                        SourceModel { path, name: file_name_of(path), text: decode_utf8(data) },
                    ),
                    ..m
                },
            )
        } else {
            None
        },
        FileType::Font => match parsed_font_family(data) {
            Some(family) => Some(
                AssetsModel { fonts: m.fonts.push(FontModel { data, family }), ..m },
            ),
            None => Some(m),
        },
        FileType::Other => Some(
            AssetsModel { assets: insert_asset_model(m.assets, path, data), ..m },
        ),
    }
}

/// Collection of a whole listing, in order, starting from `m`.
pub open spec fn collect_model(m: AssetsModel, entries: Seq<EntryModel>) -> Option<AssetsModel>
    decreases entries.len(),
{
    if entries.len() == 0 {
        Some(m)
    } else {
        match add_file_model(m, entries[0].path, entries[0].data) {
            Some(m2) => collect_model(m2, entries.drop_first()),
            None => None,
        }
    }
}

/// The models of a listing's entries.
pub open spec fn entries_model(entries: Seq<FileEntry>) -> Seq<EntryModel> {
    entries.map_values(|e: FileEntry| e@)
}

impl Assets {
    /// Well-formedness of the aggregate.
    pub open spec fn wf(&self) -> bool {
        assets_model_wf(self@)
    }

    /// An empty aggregate.
    pub fn new() -> (r: Assets)
        ensures
            r@ == empty_assets_model(),
            r.wf(),
    {
        let r = Assets { sources: Vec::new(), assets: Vec::new(), fonts: Vec::new() };
        proof {
            assert(r@ =~= empty_assets_model());
        }
        r
    }

    /// Index of the binary asset stored under `path`, if any.
    fn find_asset(&self, path: &String) -> (r: Option<usize>)
        ensures
            match r {
                Some(i) => i < self@.assets.len() && self@.assets[i as int].path == path@,
                None => forall|i: int|
                    0 <= i < self@.assets.len() ==> (#[trigger] self@.assets[i]).path != path@,
            },
    {
        let n = self.assets.len();
        let mut i: usize = 0;
        while i < n
            invariant
                i <= n,
                n == self.assets.len(),
                self@.assets.len() == n,
                forall|k: int| 0 <= k < i ==> (#[trigger] self@.assets[k]).path != path@,
            decreases n - i,
        {
            if self.assets[i].path == *path {
                return Some(i);
            }
            i = i + 1;
        }
        None
    }

    /// Insert a file into the collection based on its detected [`FileType`].
    /// A template with invalid UTF-8 is fatal; a font that does not parse is
    /// skipped; any other file is stored as a binary asset, replacing a
    /// previous asset at the same path.
    pub fn add_file(&mut self, path: String, data: Vec<u8>) -> (r: Result<(), AppError>)
        requires
            old(self).wf(),
        ensures
            final(self).wf(),
            match r {
                Ok(_) => add_file_model(old(self)@, path@, data@) == Some(final(self)@),
                Err(e) => {
                    &&& e == AppError::Io
                    &&& add_file_model(old(self)@, path@, data@) is None
                    &&& final(self)@ == old(self)@
                },
            },
    {
        match FileType::from_path(path.as_str()) {
            FileType::TypstSource => {
                match utf8_text(&data) {
                    Some(text) => {
                        let name = file_name(path.as_str());
                        self.sources.push(TemplateSource { path, name, text });
                        proof {
                            assert(self@ =~= add_file_model(old(self)@, path@, data@).unwrap());
                        }
                        Ok(())
                    },
                    None => Err(AppError::Io),
                }
            },
            FileType::Font => {
                match parse_font_family(&data) {
                    Some(family) => {
                        self.fonts.push(FontRecord { data, family });
                        proof {
                            assert(self@ =~= add_file_model(old(self)@, path@, data@).unwrap());
                        }
                        Ok(())
                    },
                    None => {
                        proof {
                            assert(self@ =~= add_file_model(old(self)@, path@, data@).unwrap());
                        }
                        Ok(())
                    },
                }
            },
            FileType::Other => {
                match self.find_asset(&path) {
                    Some(i) => {
                        proof {
                            let ghost m = old(self)@;
                            let j = choose|j: int|
                                0 <= j < m.assets.len() && (#[trigger] m.assets[j]).path == path@;
                            assert(j == i as int);
                        }
                        self.assets.remove(i);
                        self.assets.insert(i, BinaryAsset { path, data });
                        proof {
                            assert(self@ =~= add_file_model(old(self)@, path@, data@).unwrap());
                        }
                        Ok(())
                    },
                    None => {
                        self.assets.push(BinaryAsset { path, data });
                        proof {
                            assert(self@ =~= add_file_model(old(self)@, path@, data@).unwrap());
                        }
                        Ok(())
                    },
                }
            },
        }
    }
}

/// Recursively collected contents of a directory tree, handed in as a flat
/// listing in traversal order: classify every file and aggregate them.
#[verifier::loop_isolation(false)]
pub fn collect_dir_contents(entries: Vec<FileEntry>) -> (r: Result<Assets, AppError>)
    ensures
        match r {
            Ok(a) => {
                &&& a.wf()
                &&& collect_model(empty_assets_model(), entries_model(entries@)) == Some(a@)
            },
            Err(e) => {
                &&& e == AppError::Io
                &&& collect_model(empty_assets_model(), entries_model(entries@)) is None
            },
        },
{
    let ghost orig = entries_model(entries@);
    let mut rest = entries;
    let mut acc = Assets::new();
    while rest.len() > 0
        invariant
            acc.wf(),
            collect_model(empty_assets_model(), orig) == collect_model(
                acc@,
                entries_model(rest@),
            ),
        decreases rest.len(),
    {
        let ghost pre = entries_model(rest@);
        let e = rest.remove(0);
        let ghost ep = e.path@;
        let ghost ed = e.data@;
        proof {
            assert(pre[0] == e@);
            assert(entries_model(rest@) =~= pre.drop_first());
        }
        match acc.add_file(e.path, e.data) {
            Ok(_) => {
                proof {
                    assert(collect_model(empty_assets_model(), orig) == collect_model(
                        acc@,
                        entries_model(rest@),
                    ));
                }
            },
            Err(err) => {
                proof {
                    assert(add_file_model(acc@, ep, ed) is None);
                    assert(collect_model(acc@, pre) is None);
                    assert(collect_model(empty_assets_model(), orig) is None);
                }
                return Err(err);
            },
        }
    }
    Ok(acc)
}

/// `m` holds a template source under `path` with text `text`.
pub open spec fn has_source(m: AssetsModel, path: Seq<char>, text: Seq<char>) -> bool {
    exists|j: int|
        0 <= j < m.sources.len() && (#[trigger] m.sources[j]).path == path && m.sources[j].text
            == text
}

/// `m` holds a font with bytes `data` and family `family`.
pub open spec fn has_font(m: AssetsModel, data: Seq<u8>, family: Seq<char>) -> bool {
    exists|j: int|
        0 <= j < m.fonts.len() && (#[trigger] m.fonts[j]).data == data && m.fonts[j].family
            == family
}

/// `m` holds a binary asset under `path`.
pub open spec fn has_asset_path(m: AssetsModel, path: Seq<char>) -> bool {
    exists|j: int| 0 <= j < m.assets.len() && (#[trigger] m.assets[j]).path == path
}

/// One collection step never drops a template, a font, or an asset path that
/// was already present.
proof fn lemma_add_file_preserves(m: AssetsModel, e: EntryModel, m2: AssetsModel)
    requires
        add_file_model(m, e.path, e.data) == Some(m2),
    ensures
        forall|p: Seq<char>, t: Seq<char>| #[trigger]
            has_source(m, p, t) ==> has_source(m2, p, t),
        forall|d: Seq<u8>, f: Seq<char>| #[trigger] has_font(m, d, f) ==> has_font(m2, d, f),
        forall|p: Seq<char>| #[trigger] has_asset_path(m, p) ==> has_asset_path(m2, p),
{
    assert forall|p: Seq<char>, t: Seq<char>| #[trigger]
        has_source(m, p, t) implies has_source(m2, p, t) by {
        let j = choose|j: int|
            0 <= j < m.sources.len() && (#[trigger] m.sources[j]).path == p && m.sources[j].text
                == t;
        assert(0 <= j < m2.sources.len() && m2.sources[j].path == p && m2.sources[j].text == t);
    }
    assert forall|d: Seq<u8>, f: Seq<char>| #[trigger] has_font(m, d, f) implies has_font(
        m2,
        d,
        f,
    ) by {
        let j = choose|j: int|
            0 <= j < m.fonts.len() && (#[trigger] m.fonts[j]).data == d && m.fonts[j].family == f;
        assert(0 <= j < m2.fonts.len() && m2.fonts[j].data == d && m2.fonts[j].family == f);
    }
    assert forall|p: Seq<char>| #[trigger] has_asset_path(m, p) implies has_asset_path(m2, p) by {
        let j = choose|j: int| 0 <= j < m.assets.len() && (#[trigger] m.assets[j]).path == p;
        if file_type_of(e.path) == FileType::Other {
            if exists|i: int| 0 <= i < m.assets.len() && (#[trigger] m.assets[i]).path == e.path {
                let i = choose|i: int|
                    0 <= i < m.assets.len() && (#[trigger] m.assets[i]).path == e.path;
                if i == j {
                    assert(m2.assets[j].path == p);
                } else {
                    assert(m2.assets[j].path == p);
                }
            } else {
                assert(m2.assets[j].path == p);
            }
        } else {
            assert(m2.assets[j].path == p);
        }
    }
}

/// A whole collection run never drops a template, a font, or an asset path
/// that was already present when it started.
proof fn lemma_collect_preserves(m0: AssetsModel, entries: Seq<EntryModel>, m: AssetsModel)
    requires
        collect_model(m0, entries) == Some(m),
    ensures
        forall|p: Seq<char>, t: Seq<char>| #[trigger]
            has_source(m0, p, t) ==> has_source(m, p, t),
        forall|d: Seq<u8>, f: Seq<char>| #[trigger] has_font(m0, d, f) ==> has_font(m, d, f),
        forall|p: Seq<char>| #[trigger] has_asset_path(m0, p) ==> has_asset_path(m, p),
    decreases entries.len(),
{
    if entries.len() > 0 {
        let m1 = add_file_model(m0, entries[0].path, entries[0].data).unwrap();
        lemma_add_file_preserves(m0, entries[0], m1);
        lemma_collect_preserves(m1, entries.drop_first(), m);
    }
}

/// One collection step records the file it was given: a template lands in
/// the sources, a parsable font in the font sequence, anything else as a
/// binary asset under its path.
proof fn lemma_add_file_adds(m: AssetsModel, e: EntryModel, m2: AssetsModel)
    requires
        add_file_model(m, e.path, e.data) == Some(m2),
    ensures
        file_type_of(e.path) == FileType::TypstSource ==> has_source(
            m2,
            e.path,
            decode_utf8(e.data),
        ),
        file_type_of(e.path) == FileType::Font && parsed_font_family(e.data) is Some
            ==> has_font(m2, e.data, parsed_font_family(e.data).unwrap()),
        file_type_of(e.path) == FileType::Other ==> has_asset_path(m2, e.path),
{
    if file_type_of(e.path) == FileType::TypstSource {
        let j = m2.sources.len() - 1;
        assert(m2.sources[j].path == e.path && m2.sources[j].text == decode_utf8(e.data));
    } else if file_type_of(e.path) == FileType::Font {
        if parsed_font_family(e.data) is Some {
            let j = m2.fonts.len() - 1;
            assert(m2.fonts[j].data == e.data && m2.fonts[j].family == parsed_font_family(
                e.data,
            ).unwrap());
        }
    } else {
        if exists|i: int| 0 <= i < m.assets.len() && (#[trigger] m.assets[i]).path == e.path {
            let i = choose|i: int|
                0 <= i < m.assets.len() && (#[trigger] m.assets[i]).path == e.path;
            assert(m2.assets[i].path == e.path);
        } else {
            let j = m2.assets.len() - 1;
            assert(m2.assets[j].path == e.path);
        }
    }
}

/// Classification is complete: in a successful collection, every template
/// file appears among the sources under its path with its decoded text,
/// every font file whose bytes parse appears in the font sequence, and every
/// other file appears as a binary asset under its path.
pub proof fn lemma_collect_classifies(m0: AssetsModel, entries: Seq<EntryModel>, m: AssetsModel)
    requires
        collect_model(m0, entries) == Some(m),
    ensures
        forall|i: int|
            0 <= i < entries.len() && file_type_of((#[trigger] entries[i]).path)
                == FileType::TypstSource ==> has_source(
                m,
                entries[i].path,
                decode_utf8(entries[i].data),
            ),
        forall|i: int|
            0 <= i < entries.len() && file_type_of((#[trigger] entries[i]).path) == FileType::Font
                && parsed_font_family(entries[i].data) is Some ==> has_font(
                m,
                entries[i].data,
                parsed_font_family(entries[i].data).unwrap(),
            ),
        forall|i: int|
            0 <= i < entries.len() && file_type_of((#[trigger] entries[i]).path) == FileType::Other
                ==> has_asset_path(m, entries[i].path),
    decreases entries.len(),
{
    if entries.len() > 0 {
        let m1 = add_file_model(m0, entries[0].path, entries[0].data).unwrap();
        lemma_add_file_adds(m0, entries[0], m1);
        lemma_collect_preserves(m1, entries.drop_first(), m);
        lemma_collect_classifies(m1, entries.drop_first(), m);
        assert forall|i: int| 1 <= i < entries.len() implies entries.drop_first()[i - 1]
            == entries[i] by {}
    }
}

} // verus!

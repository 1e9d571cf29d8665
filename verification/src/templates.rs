//! The page registry: an ordered table of configured logical pages, loaded
//! once at startup from a declarative page-list document and keyed by each
//! page's request path.

use vstd::prelude::*;

use crate::page_map::{
    keys_unique, ordered_insert, page_map_entries, page_map_get, page_map_insert, page_map_new,
    registry_wf, spec_lookup,
};
use indexmap::IndexMap;

verus! {

/// One configured logical page: the request path it answers to, its title,
/// and whether it takes part in navigation and loads client-side script.
pub struct TemplatePage {
    pub title: String,
    pub url: String,
    pub navigable: bool,
    pub scripted: bool,
}

/// The mathematical image of a [`TemplatePage`].
pub ghost struct PageView {
    pub title: Seq<char>,
    pub url: Seq<char>,
    pub navigable: bool,
    pub scripted: bool,
}

impl View for TemplatePage {
    type V = PageView;

    open spec fn view(&self) -> PageView {
        PageView {
            title: self.title@,
            url: self.url@,
            navigable: self.navigable,
            scripted: self.scripted,
        }
    }
}

impl DeepView for TemplatePage {
    type V = PageView;

    open spec fn deep_view(&self) -> PageView {
        self.view()
    }
}

/// What the page-list document gives for one top-level entry, as plain
/// values: the entry's identifier, its `title` and `url` fields where they
/// are present and are strings, and its `nav` and `script` fields where they
/// are present and are booleans.
pub struct RawPageEntry {
    pub id: String,
    pub title: Option<String>,
    pub url: Option<String>,
    pub nav: Option<bool>,
    pub script: Option<bool>,
}

/// The mathematical image of a [`RawPageEntry`].
pub ghost struct EntryView {
    pub id: Seq<char>,
    pub title: Option<Seq<char>>,
    pub url: Option<Seq<char>>,
    pub nav: Option<bool>,
    pub script: Option<bool>,
}

impl View for RawPageEntry {
    type V = EntryView;

    open spec fn view(&self) -> EntryView {
        EntryView {
            id: self.id@,
            title: self.title.deep_view(),
            url: self.url.deep_view(),
            nav: self.nav,
            script: self.script,
        }
    }
}

impl DeepView for RawPageEntry {
    type V = EntryView;

    open spec fn deep_view(&self) -> EntryView {
        self.view()
    }
}

/// The required page-list fields.
#[derive(Clone, Copy, Debug, PartialEq, Eq, Structural)]
pub enum PageField {
    Title,
    Url,
}

/// Why a page-list document was rejected.
#[derive(Debug)]
pub enum LoadError {
    /// The document is not valid structured data.
    Parse { message: String },
    /// A required field of the named entry is absent or not a string.
    MissingField { page: String, field: PageField },
}

/// The mathematical image of a [`LoadError`].
pub ghost enum LoadErrorView {
    Parse { message: Seq<char> },
    MissingField { page: Seq<char>, field: PageField },
}

impl View for LoadError {
    type V = LoadErrorView;

    open spec fn view(&self) -> LoadErrorView {
        match self {
            LoadError::Parse { message } => LoadErrorView::Parse { message: message@ },
            LoadError::MissingField { page, field } => LoadErrorView::MissingField {
                page: page@,
                field: *field,
            },
        }
    }
}

/// The message a load failure is reported with: a parse failure carries the
/// parser's message; a field failure names the offending entry's identifier
/// and the missing or ill-typed field.
pub open spec fn load_error_message_of(e: LoadErrorView) -> Seq<char> {
    match e {
        LoadErrorView::Parse { message } => "Failed to parse TOML input: "@ + message,
        LoadErrorView::MissingField { page, field } => "'"@ + (if field == PageField::Title {
            "title"@
        } else {
            "url"@
        }) + "' field for page "@ + page + " is missing, or not a string."@,
    }
}

impl LoadError {
    /// The human-readable description of this load failure.
    pub fn message(&self) -> (r: String)
        ensures
            r@ == load_error_message_of(self@),
    {
        match self {
            LoadError::Parse { message } => String::from_str("Failed to parse TOML input: ")
                .concat(message.as_str()),
            LoadError::MissingField { page, field } => {
                let name: &str = match field {
                    PageField::Title => "title",
                    PageField::Url => "url",
                };
                String::from_str("'").concat(name).concat("' field for page ").concat(
                    page.as_str(),
                ).concat(" is missing, or not a string.")
            },
        }
    }
}

/// What parsing the page-list document yields: in document order, each
/// top-level entry's identifier with the fields the registry reads, or the
/// parser's message when the document is not valid structured data.
pub uninterp spec fn toml_page_entries(source: Seq<char>) -> Result<Seq<EntryView>, Seq<char>>;

/// Relies on `toml::from_str` and `toml::Value::{get, as_str, as_bool}`: the
/// document's top-level entries, in document order (the table preserves it),
/// each reduced to its identifier and the four fields the registry reads.
#[verifier::external_body]
fn parse_page_entries(source: &str) -> (r: Result<Vec<RawPageEntry>, String>)
    ensures
        match r {
            Ok(v) => toml_page_entries(source@) == Ok::<Seq<EntryView>, Seq<char>>(v.deep_view()),
            Err(e) => toml_page_entries(source@) == Err::<Seq<EntryView>, Seq<char>>(e@),
        },
{
    let table: toml::Table = match toml::from_str(source) {
        Ok(t) => t,
        Err(e) => return Err(e.to_string()),
    };
    Ok(table
        .into_iter()
        .map(|(id, value)| RawPageEntry {
            title: value.get("title").and_then(|v| v.as_str()).map(str::to_string),
            url: value.get("url").and_then(|v| v.as_str()).map(str::to_string),
            nav: value.get("nav").and_then(|v| v.as_bool()),
            script: value.get("script").and_then(|v| v.as_bool()),
            id,
        })
        .collect())
}

/// The descriptor an entry with both required fields loads to: absent or
/// ill-typed `nav` defaults to false, absent or ill-typed `script` to true.
pub open spec fn descriptor_of(e: EntryView) -> PageView {
    PageView {
        title: e.title->0,
        url: e.url->0,
        navigable: match e.nav {
            Some(b) => b,
            None => false,
        },
        scripted: match e.script {
            Some(b) => b,
            None => true,
        },
    }
}

/// Folds the parsed entries, in document order, over a registry under
/// construction: the first entry missing `title` or `url` aborts the load,
/// naming that entry; every other entry is keyed by its `url`.
pub open spec fn build_registry_from(
    entries: Seq<EntryView>,
    acc: Seq<(Seq<char>, PageView)>,
) -> Result<Seq<(Seq<char>, PageView)>, LoadErrorView>
    decreases entries.len(),
{
    if entries.len() == 0 {
        Ok(acc)
    } else if entries[0].title is None {
        Err(LoadErrorView::MissingField { page: entries[0].id, field: PageField::Title })
    } else if entries[0].url is None {
        Err(LoadErrorView::MissingField { page: entries[0].id, field: PageField::Url })
    } else {
        build_registry_from(
            entries.drop_first(),
            ordered_insert(acc, entries[0].url->0, descriptor_of(entries[0])),
        )
    }
}

/// The registry a sequence of parsed entries loads to, or the error.
pub open spec fn build_registry(entries: Seq<EntryView>) -> Result<
    Seq<(Seq<char>, PageView)>,
    LoadErrorView,
> {
    build_registry_from(entries, Seq::empty())
}

/// What loading a page-list document yields: the registry entries in
/// document order, or the error the document is rejected with.
pub open spec fn load_result(source: Seq<char>) -> Result<
    Seq<(Seq<char>, PageView)>,
    LoadErrorView,
> {
    match toml_page_entries(source) {
        Ok(entries) => build_registry(entries),
        Err(message) => Err(LoadErrorView::Parse { message }),
    }
}

/// The page registry: an immutable, insertion-ordered table of configured
/// pages, keyed by each page's `url`.
pub struct Templates {
    page_map: IndexMap<String, TemplatePage>,
}

impl View for Templates {
    type V = Seq<(Seq<char>, PageView)>;

    closed spec fn view(&self) -> Seq<(Seq<char>, PageView)> {
        page_map_entries(self.page_map)
    }
}

impl Templates {
    /// The registry's keys are unique and each entry is keyed by its url.
    pub open spec fn wf(&self) -> bool {
        registry_wf(self@)
    }

    /// Loads the page registry from the text of a page-list document: each
    /// top-level entry becomes a descriptor keyed by its `url`, in document
    /// order; the load fails on a document that is not valid structured data,
    /// or on the first entry whose `title` or `url` is absent or not a
    /// string, naming that entry.
    pub fn load(source: &str) -> (r: Result<Templates, LoadError>)
        ensures
            r matches Ok(t) ==> (load_result(source@) matches Ok(reg) && t@ == reg && t.wf()),
            r matches Err(e) ==> (load_result(source@) matches Err(ev) && e@ == ev),
    {
        let entries = match parse_page_entries(source) {
            Ok(v) => v,
            Err(message) => return Err(LoadError::Parse { message }),
        };
        let ghost evs = entries.deep_view();
        let mut page_map = page_map_new();
        let n = entries.len();
        let mut i: usize = 0;
        proof {
            assert(evs.skip(0) =~= evs);
        }
        while i < n
            invariant
                i <= n,
                n == entries@.len(),
                evs == entries.deep_view(),
                evs.len() == n,
                toml_page_entries(source@) == Ok::<Seq<EntryView>, Seq<char>>(evs),
                registry_wf(page_map_entries(page_map)),
                build_registry(evs) == build_registry_from(
                    evs.skip(i as int),
                    page_map_entries(page_map),
                ),
            decreases n - i,
        {
            let entry = &entries[i];
            proof {
                assert(evs[i as int] == entries@[i as int].deep_view());
                assert(evs.skip(i as int)[0] == evs[i as int]);
            }
            let title = match &entry.title {
                Some(t) => t,
                None => {
                    return Err(
                        LoadError::MissingField { page: entry.id.clone(), field: PageField::Title },
                    );
                },
            };
            let url = match &entry.url {
                Some(u) => u,
                None => {
                    return Err(
                        LoadError::MissingField { page: entry.id.clone(), field: PageField::Url },
                    );
                },
            };
            let navigable = match entry.nav {
                Some(b) => b,
                None => false,
            };
            let scripted = match entry.script {
                Some(b) => b,
                None => true,
            };
            let page = TemplatePage {
                title: title.clone(),
                url: url.clone(),
                navigable,
                scripted,
            };
            proof {
                assert(page@ == descriptor_of(evs[i as int]));
                assert(evs.skip(i as int).drop_first() =~= evs.skip(i as int + 1));
                crate::page_map::lemma_ordered_insert_wf(
                    page_map_entries(page_map),
                    url@,
                    page@,
                );
            }
            page_map_insert(&mut page_map, url.clone(), page);
            i = i + 1;
        }
        proof {
            assert(evs.skip(n as int) =~= Seq::<EntryView>::empty());
        }
        Ok(Templates { page_map })
    }

    /// Looks the request path up in the registry; a miss is an expected
    /// outcome, not an error.
    pub fn get_page<'a>(&'a self, path: &str) -> (r: Option<&'a TemplatePage>)
        requires
            self.wf(),
        ensures
            r matches Some(p) ==> spec_lookup(self@, path@) == Some(p@),
            r is None ==> spec_lookup(self@, path@) is None,
    {
        let r = page_map_get(&self.page_map, path);
        proof {
            if r is Some {
                let i = choose|i: int|
                    0 <= i < self@.len() && self@[i] == (path@, (r->0)@);
                crate::page_map::lemma_lookup_at_index(self@, i);
            } else {
                crate::page_map::lemma_lookup_absent(self@, path@);
            }
        }
        r
    }
}

/// A parsed document all of whose entries carry `title` and `url` builds a
/// registry; and when the entries' urls are pairwise distinct, each entry's
/// url looks up to its descriptor, with the given or defaulted flags.
pub proof fn lemma_load_well_formed(entries: Seq<EntryView>)
    requires
        forall|i: int|
            0 <= i < entries.len() ==> (#[trigger] entries[i]).title is Some
                && entries[i].url is Some,
        forall|i: int, j: int| 0 <= i < j < entries.len() ==> entries[i].url != entries[j].url,
    ensures
        build_registry(entries) is Ok,
        forall|i: int|
            0 <= i < entries.len() ==> spec_lookup(
                build_registry(entries)->Ok_0,
                (#[trigger] entries[i]).url->0,
            ) == Some(descriptor_of(entries[i])),
{
    lemma_build_from_ok(entries, Seq::empty());
    assert forall|i: int| 0 <= i < entries.len() implies spec_lookup(
        build_registry(entries)->Ok_0,
        (#[trigger] entries[i]).url->0,
    ) == Some(descriptor_of(entries[i])) by {
        lemma_build_from_entry(entries, Seq::empty(), i);
    }
}

/// A parsed document with an entry missing `title` or `url` fails to load,
/// naming the first such entry and its first missing field.
pub proof fn lemma_load_names_offending_entry(entries: Seq<EntryView>, i: int)
    requires
        0 <= i < entries.len(),
        entries[i].title is None || entries[i].url is None,
        forall|j: int|
            0 <= j < i ==> (#[trigger] entries[j]).title is Some && entries[j].url is Some,
    ensures
        build_registry(entries) == Err::<Seq<(Seq<char>, PageView)>, LoadErrorView>(
            LoadErrorView::MissingField {
                page: entries[i].id,
                field: if entries[i].title is None {
                    PageField::Title
                } else {
                    PageField::Url
                },
            },
        ),
{
    lemma_build_from_missing(entries, Seq::empty(), i);
}

proof fn lemma_build_from_ok(entries: Seq<EntryView>, acc: Seq<(Seq<char>, PageView)>)
    requires
        forall|i: int|
            0 <= i < entries.len() ==> (#[trigger] entries[i]).title is Some
                && entries[i].url is Some,
    ensures
        build_registry_from(entries, acc) is Ok,
    decreases entries.len(),
{
    if entries.len() > 0 {
        lemma_build_from_ok(
            entries.drop_first(),
            ordered_insert(acc, entries[0].url->0, descriptor_of(entries[0])),
        );
    }
}

proof fn lemma_build_from_missing(entries: Seq<EntryView>, acc: Seq<(Seq<char>, PageView)>, i: int)
    requires
        0 <= i < entries.len(),
        entries[i].title is None || entries[i].url is None,
        forall|j: int|
            0 <= j < i ==> (#[trigger] entries[j]).title is Some && entries[j].url is Some,
    ensures
        build_registry_from(entries, acc) == Err::<Seq<(Seq<char>, PageView)>, LoadErrorView>(
            LoadErrorView::MissingField {
                page: entries[i].id,
                field: if entries[i].title is None {
                    PageField::Title
                } else {
                    PageField::Url
                },
            },
        ),
    decreases i,
{
    if i > 0 {
        assert(entries.drop_first()[i - 1] == entries[i]);
        lemma_build_from_missing(
            entries.drop_first(),
            ordered_insert(acc, entries[0].url->0, descriptor_of(entries[0])),
            i - 1,
        );
    }
}

/// Once a key is bound in the accumulator and no later entry re-binds it,
/// building the rest of the registry leaves its lookup unchanged.
proof fn lemma_build_from_preserves(
    entries: Seq<EntryView>,
    acc: Seq<(Seq<char>, PageView)>,
    key: Seq<char>,
    value: PageView,
)
    requires
        forall|i: int|
            0 <= i < entries.len() ==> (#[trigger] entries[i]).title is Some
                && entries[i].url is Some,
        forall|i: int| 0 <= i < entries.len() ==> (#[trigger] entries[i]).url->0 != key,
        keys_unique(acc),
        spec_lookup(acc, key) == Some(value),
    ensures
        build_registry_from(entries, acc) matches Ok(reg) && spec_lookup(reg, key) == Some(value),
    decreases entries.len(),
{
    if entries.len() > 0 {
        let e = entries[0];
        let acc2 = ordered_insert(acc, e.url->0, descriptor_of(e));
        crate::page_map::lemma_ordered_insert_lookup_other(acc, e.url->0, descriptor_of(e), key);
        crate::page_map::lemma_ordered_insert_unique(acc, e.url->0, descriptor_of(e));
        lemma_build_from_preserves(entries.drop_first(), acc2, key, value);
    }
}

proof fn lemma_build_from_entry(entries: Seq<EntryView>, acc: Seq<(Seq<char>, PageView)>, i: int)
    requires
        forall|j: int|
            0 <= j < entries.len() ==> (#[trigger] entries[j]).title is Some
                && entries[j].url is Some,
        forall|j: int, k: int| 0 <= j < k < entries.len() ==> entries[j].url != entries[k].url,
        keys_unique(acc),
        0 <= i < entries.len(),
    ensures
        build_registry_from(entries, acc) matches Ok(reg) && spec_lookup(reg, entries[i].url->0)
            == Some(descriptor_of(entries[i])),
    decreases entries.len(),
{
    let e = entries[0];
    let acc2 = ordered_insert(acc, e.url->0, descriptor_of(e));
    crate::page_map::lemma_ordered_insert_unique(acc, e.url->0, descriptor_of(e));
    if i == 0 {
        crate::page_map::lemma_ordered_insert_lookup_same(acc, e.url->0, descriptor_of(e));
        assert(forall|j: int|
            0 <= j < entries.drop_first().len() ==> (#[trigger] entries.drop_first()[j]).url->0
                != e.url->0);
        lemma_build_from_preserves(entries.drop_first(), acc2, e.url->0, descriptor_of(e));
    } else {
        assert(entries.drop_first()[i - 1] == entries[i]);
        lemma_build_from_entry(entries.drop_first(), acc2, i - 1);
    }
}

} // verus!

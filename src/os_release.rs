//! The OS-release metadata file and the rows of the Distribution page.

use vstd::prelude::*;
use vstd::string::*;
use etc_os_release::OsRelease;
use itertools::Itertools;
use crate::parse::{rows_view, DisplayRow};

verus! {

broadcast use vstd::string::group_string_axioms;

#[verifier::external_type_specification]
#[verifier::external_body]
pub struct ExOsRelease(OsRelease);

/// The fields that a parsed metadata file holds, by key.
pub uninterp spec fn release_fields(r: OsRelease) -> Map<Seq<char>, Seq<char>>;

/// The fields that `OsRelease::from_str` reads from a text.
pub uninterp spec fn text_fields(text: Seq<char>) -> Map<Seq<char>, Seq<char>>;

/// The words of a list-valued field, as `OsRelease::get_value_as_list` splits it.
pub uninterp spec fn list_words(value: Seq<char>) -> Seq<Seq<char>>;

/// The URL that `OsRelease::get_value_as_url` reads from a value, as text; none where the
/// value does not parse as a URL.
pub uninterp spec fn url_text(value: Seq<char>) -> Option<Seq<char>>;

/// The date that `OsRelease::get_value_as_date` reads from a value, as text; none where
/// the value does not parse as a date.
pub uninterp spec fn date_text(value: Seq<char>) -> Option<Seq<char>>;

/// Relies on `OsRelease::from_str` (which cannot fail) to read the fields of a text.
#[verifier::external_body]
fn parse_release(text: &str) -> (r: OsRelease)
    ensures
        release_fields(r) == text_fields(text@),
{
    match <OsRelease as std::str::FromStr>::from_str(text) {
        Ok(r) => r,
        Err(e) => match e {},
    }
}

/// Relies on `OsRelease::get_value`: the value stored under `key`, if any.
#[verifier::external_body]
fn release_value(r: &OsRelease, key: &str) -> (v: Option<String>)
    ensures
        v is Some <==> release_fields(*r).contains_key(key@),
        v matches Some(s) ==> s@ == release_fields(*r)[key@],
{
    r.get_value(key).map(String::from)
}

/// Relies on `OsRelease::get_value_as_list`: the words of the value stored under `key`.
#[verifier::external_body]
fn release_list(r: &OsRelease, key: &str) -> (v: Option<Vec<String>>)
    ensures
        v is Some <==> release_fields(*r).contains_key(key@),
        v matches Some(ws) ==> ws@.map_values(|w: String| w@) == list_words(
            release_fields(*r)[key@],
        ),
{
    r.get_value_as_list(key).map(|words| words.map(String::from).collect())
}

/// Relies on `OsRelease::get_value_as_url`: the value stored under `key`, read as a URL.
#[verifier::external_body]
fn release_url(r: &OsRelease, key: &str) -> (v: Option<String>)
    ensures
        !release_fields(*r).contains_key(key@) ==> v is None,
        release_fields(*r).contains_key(key@) ==> opt_text(v) == url_text(
            release_fields(*r)[key@],
        ),
{
    match r.get_value_as_url(key) {
        Ok(Some(url)) => Some(String::from(url.as_str())),
        Ok(None) => None,
        Err(_) => None,
    }
}

/// Relies on `OsRelease::get_value_as_date`: the value stored under `key`, read as a date.
#[verifier::external_body]
fn release_date(r: &OsRelease, key: &str) -> (v: Option<String>)
    ensures
        !release_fields(*r).contains_key(key@) ==> v is None,
        release_fields(*r).contains_key(key@) ==> opt_text(v) == date_text(
            release_fields(*r)[key@],
        ),
{
    match r.get_value_as_date(key) {
        Ok(Some(date)) => Some(date.to_string()),
        Ok(None) => None,
        Err(_) => None,
    }
}

/// `ws` with `sep` between each two of them.
pub open spec fn join_with(ws: Seq<Seq<char>>, sep: Seq<char>) -> Seq<char>
    decreases ws.len(),
{
    if ws.len() == 0 {
        Seq::empty()
    } else if ws.len() == 1 {
        ws[0]
    } else {
        join_with(ws.drop_last(), sep) + sep + ws.last()
    }
}

/// Relies on `Itertools::join`: the items with `sep` between each two of them.
#[verifier::external_body]
fn join_words(ws: &Vec<String>, sep: &str) -> (r: String)
    ensures
        r@ == join_with(ws@.map_values(|w: String| w@), sep@),
{
    ws.iter().join(sep)
}

/// The text of an optional string.
pub open spec fn opt_text(v: Option<String>) -> Option<Seq<char>> {
    match v {
        Some(s) => Some(s@),
        None => None,
    }
}

/// How a field's value is read.
#[derive(Clone, Copy, Debug, PartialEq, Eq)]
pub enum FieldKind {
    /// The value as it stands.
    Text,
    /// A whitespace-separated list, shown joined by `", "`.
    List,
    /// A URL.
    Url,
    /// A date.
    Date,
}

/// How many fields the Distribution page can show.
pub const FIELD_COUNT: usize = 30;

/// The key, row label and kind of the field at `i` in the Distribution page's order.
pub open spec fn field_entry(i: usize) -> (Seq<char>, Seq<char>, FieldKind) {
    match i {
        0 => ("ID"@, "id"@, FieldKind::Text),
        1 => ("ID_LIKE"@, "id-like"@, FieldKind::List),
        2 => ("NAME"@, "name"@, FieldKind::Text),
        3 => ("PRETTY_NAME"@, "pretty-name"@, FieldKind::Text),
        4 => ("VERSION"@, "version"@, FieldKind::Text),
        5 => ("VERSION_ID"@, "version-id"@, FieldKind::Text),
        6 => ("VERSION_CODENAME"@, "version-codename"@, FieldKind::Text),
        7 => ("BUILD_ID"@, "build-id"@, FieldKind::Text),
        8 => ("IMAGE_ID"@, "image-id"@, FieldKind::Text),
        9 => ("IMAGE_VERSION"@, "image-version"@, FieldKind::Text),
        10 => ("VENDOR_NAME"@, "vendor-name"@, FieldKind::Text),
        11 => ("ANSI_COLOR"@, "ansi-color"@, FieldKind::Text),
        12 => ("LOGO"@, "logo"@, FieldKind::Text),
        13 => ("CPE_NAME"@, "cpe-name"@, FieldKind::Text),
        14 => ("HOME_URL"@, "home-url"@, FieldKind::Url),
        15 => ("VENDOR_URL"@, "vendor-url"@, FieldKind::Url),
        16 => ("DOCUMENTATION_URL"@, "doc-url"@, FieldKind::Url),
        17 => ("SUPPORT_URL"@, "support-url"@, FieldKind::Url),
        18 => ("BUG_REPORT_URL"@, "bug-report-url"@, FieldKind::Url),
        19 => ("PRIVACY_POLICY_URL"@, "privacy-policy-url"@, FieldKind::Url),
        20 => ("SUPPORT_END"@, "support-end"@, FieldKind::Date),
        21 => ("VARIANT"@, "variant"@, FieldKind::Text),
        22 => ("VARIANT_ID"@, "variant-id"@, FieldKind::Text),
        23 => ("DEFAULT_HOSTNAME"@, "default-hostname"@, FieldKind::Text),
        24 => ("ARCHITECTURE"@, "arch"@, FieldKind::Text),
        25 => ("SYSEXT_LEVEL"@, "sysext-level"@, FieldKind::Text),
        26 => ("SYSEXT_SCOPE"@, "sysext-scope"@, FieldKind::List),
        27 => ("CONFEXT_LEVEL"@, "confext-level"@, FieldKind::Text),
        28 => ("CONFEXT_SCOPE"@, "confext-scope"@, FieldKind::List),
        _ => ("PORTABLE_PREFIXES"@, "portable-prefixes"@, FieldKind::List),
    }
}

/// The key, row label and kind of the field at `i` in the Distribution page's order.
pub fn field(i: usize) -> (r: (&'static str, &'static str, FieldKind))
    requires
        i < FIELD_COUNT,
    ensures
        (r.0@, r.1@, r.2) == field_entry(i),
{
    match i {
        0 => ("ID", "id", FieldKind::Text),
        1 => ("ID_LIKE", "id-like", FieldKind::List),
        2 => ("NAME", "name", FieldKind::Text),
        3 => ("PRETTY_NAME", "pretty-name", FieldKind::Text),
        4 => ("VERSION", "version", FieldKind::Text),
        5 => ("VERSION_ID", "version-id", FieldKind::Text),
        6 => ("VERSION_CODENAME", "version-codename", FieldKind::Text),
        7 => ("BUILD_ID", "build-id", FieldKind::Text),
        8 => ("IMAGE_ID", "image-id", FieldKind::Text),
        9 => ("IMAGE_VERSION", "image-version", FieldKind::Text),
        10 => ("VENDOR_NAME", "vendor-name", FieldKind::Text),
        11 => ("ANSI_COLOR", "ansi-color", FieldKind::Text),
        12 => ("LOGO", "logo", FieldKind::Text),
        13 => ("CPE_NAME", "cpe-name", FieldKind::Text),
        14 => ("HOME_URL", "home-url", FieldKind::Url),
        15 => ("VENDOR_URL", "vendor-url", FieldKind::Url),
        16 => ("DOCUMENTATION_URL", "doc-url", FieldKind::Url),
        17 => ("SUPPORT_URL", "support-url", FieldKind::Url),
        18 => ("BUG_REPORT_URL", "bug-report-url", FieldKind::Url),
        19 => ("PRIVACY_POLICY_URL", "privacy-policy-url", FieldKind::Url),
        20 => ("SUPPORT_END", "support-end", FieldKind::Date),
        21 => ("VARIANT", "variant", FieldKind::Text),
        22 => ("VARIANT_ID", "variant-id", FieldKind::Text),
        23 => ("DEFAULT_HOSTNAME", "default-hostname", FieldKind::Text),
        24 => ("ARCHITECTURE", "arch", FieldKind::Text),
        25 => ("SYSEXT_LEVEL", "sysext-level", FieldKind::Text),
        26 => ("SYSEXT_SCOPE", "sysext-scope", FieldKind::List),
        27 => ("CONFEXT_LEVEL", "confext-level", FieldKind::Text),
        28 => ("CONFEXT_SCOPE", "confext-scope", FieldKind::List),
        _ => ("PORTABLE_PREFIXES", "portable-prefixes", FieldKind::List),
    }
}

/// The text that the field at `i` shows for the fields `m`; none where the file lacks
/// the field or its value does not read as the field's kind.
pub open spec fn field_value(m: Map<Seq<char>, Seq<char>>, i: usize) -> Option<Seq<char>> {
    let (key, _, kind) = field_entry(i);
    if !m.contains_key(key) {
        None
    } else {
        match kind {
            FieldKind::Text => Some(m[key]),
            FieldKind::List => Some(join_with(list_words(m[key]), ", "@)),
            FieldKind::Url => url_text(m[key]),
            FieldKind::Date => date_text(m[key]),
        }
    }
}

/// The rows of the first `n` fields: one for each field with a non-empty value, labelled
/// with the field's label, in the fields' order.
pub open spec fn rows_of_fields(m: Map<Seq<char>, Seq<char>>, n: usize) -> Seq<(Seq<char>, Seq<char>)>
    decreases n,
{
    if n == 0 {
        Seq::empty()
    } else {
        let prev = rows_of_fields(m, (n - 1) as usize);
        match field_value(m, (n - 1) as usize) {
            Some(v) => if v.len() > 0 {
                prev.push((field_entry((n - 1) as usize).1, v))
            } else {
                prev
            },
            None => prev,
        }
    }
}

/// The rows of the Distribution page for the fields `m`.
pub open spec fn distribution_rows_of(m: Map<Seq<char>, Seq<char>>) -> Seq<(Seq<char>, Seq<char>)> {
    rows_of_fields(m, FIELD_COUNT)
}

/// The parsed contents of an OS-release metadata file.
pub struct OsReleaseRecord {
    release: OsRelease,
}

impl View for OsReleaseRecord {
    type V = Map<Seq<char>, Seq<char>>;

    closed spec fn view(&self) -> Map<Seq<char>, Seq<char>> {
        release_fields(self.release)
    }
}

impl OsReleaseRecord {
    /// Reads the `KEY=value` lines of a metadata file's text.
    pub fn from_text(text: &str) -> (r: OsReleaseRecord)
        ensures
            r@ == text_fields(text@),
    {
        OsReleaseRecord { release: parse_release(text) }
    }

    /// Takes the fields of a metadata file that was already parsed.
    pub fn from_release(release: OsRelease) -> (r: OsReleaseRecord)
        ensures
            r@ == release_fields(release),
    {
        OsReleaseRecord { release }
    }

    /// The value stored under `key`, as written in the file (quotes removed).
    pub fn value(&self, key: &str) -> (v: Option<String>)
        ensures
            opt_text(v) == if self@.contains_key(key@) {
                Some(self@[key@])
            } else {
                None
            },
    {
        release_value(&self.release, key)
    }

    /// The text that the field at `i` shows.
    fn field_text(&self, i: usize) -> (v: Option<String>)
        requires
            i < FIELD_COUNT,
        ensures
            opt_text(v) == field_value(self@, i),
    {
        let (key, _, kind) = field(i);
        match kind {
            FieldKind::Text => release_value(&self.release, key),
            FieldKind::List => match release_list(&self.release, key) {
                Some(words) => Some(join_words(&words, ", ")),
                None => None,
            },
            FieldKind::Url => release_url(&self.release, key),
            FieldKind::Date => release_date(&self.release, key),
        }
    }

    /// The rows of the Distribution page: one per field that the file holds with a
    /// non-empty value, in the fixed field order, labelled by the field's label.
    pub fn distribution_rows(&self) -> (r: Vec<DisplayRow>)
        ensures
            rows_view(r@) == distribution_rows_of(self@),
    {
        let mut rows: Vec<DisplayRow> = Vec::new();
        let mut i: usize = 0;
        assert(rows_view(rows@) =~= rows_of_fields(self@, 0));
        while i < FIELD_COUNT
            invariant
                i <= FIELD_COUNT,
                rows_view(rows@) == rows_of_fields(self@, i),
            decreases FIELD_COUNT - i,
        {
            let ghost before = rows@;
            let (_, label, _) = field(i);
            match self.field_text(i) {
                Some(v) => {
                    if !v.as_str().is_empty() {
                        rows.push(DisplayRow { label: label.to_owned(), value: v });
                        assert(rows_view(rows@) =~= rows_view(before).push(rows@.last()@));
                    }
                },
                None => {},
            }
            i = i + 1;
        }
        rows
    }
}

/// Whether `label` is the label of one of the first `n` fields and the fields `m` hold
/// that field's key.
pub open spec fn label_of_present_field(m: Map<Seq<char>, Seq<char>>, label: Seq<char>, n: usize) -> bool {
    exists|i: usize| i < n && m.contains_key(#[trigger] field_entry(i).0) && label == field_entry(i).1
}

proof fn lemma_rows_of_fields_present(m: Map<Seq<char>, Seq<char>>, n: usize)
    requires
        n <= FIELD_COUNT,
    ensures
        forall|k: int|
            0 <= k < rows_of_fields(m, n).len() ==> label_of_present_field(
                m,
                #[trigger] rows_of_fields(m, n)[k].0,
                n,
            ),
    decreases n,
{
    if n > 0 {
        let prev = rows_of_fields(m, (n - 1) as usize);
        lemma_rows_of_fields_present(m, (n - 1) as usize);
        let rs = rows_of_fields(m, n);
        assert forall|k: int| 0 <= k < rs.len() implies label_of_present_field(
            m,
            #[trigger] rs[k].0,
            n,
        ) by {
            if k < prev.len() {
                assert(rs[k] == prev[k]);
                assert(label_of_present_field(m, prev[k].0, (n - 1) as usize));
                let i = choose|i: usize|
                    i < n - 1 && m.contains_key(#[trigger] field_entry(i).0) && prev[k].0
                        == field_entry(i).1;
                assert(i < n);
            } else {
                let i = (n - 1) as usize;
                assert(m.contains_key(field_entry(i).0));
            }
        }
    }
}

/// A field that the metadata file lacks gives no row: every row of the Distribution page
/// carries the label of a field whose key the file holds.
pub proof fn lemma_absent_fields_have_no_row(m: Map<Seq<char>, Seq<char>>)
    ensures
        forall|k: int|
            0 <= k < distribution_rows_of(m).len() ==> label_of_present_field(
                m,
                #[trigger] distribution_rows_of(m)[k].0,
                FIELD_COUNT,
            ),
{
    lemma_rows_of_fields_present(m, FIELD_COUNT);
}

} // verus!

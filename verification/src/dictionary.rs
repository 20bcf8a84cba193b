//! The shared transcription dictionary: display terms with the aliases that
//! a transcript may contain for them.

use vstd::prelude::*;
use crate::clock::{is_rfc3339_utc, now_rfc3339};
use crate::entry_id::{derive_id, derived_id, lemma_derived_id_is_uuid, lemma_derived_ids_differ};
use vstd::relations::injective_on;
use vstd::set_lib::{lemma_int_range, lemma_len_subset, lemma_map_size, set_int_range};

verus! {

broadcast use Seq::lemma_push_map_commute, Seq::lemma_filter_push;

/// One dictionary term.
#[derive(Debug, Clone)]
pub struct DictionaryEntry {
    /// Unique identifier (a hyphenated UUID for entries made here).
    pub id: String,
    /// The spelling the transcript should show.
    pub display: String,
    /// Spellings that stand for `display`.
    pub aliases: Vec<String>,
    /// Which tool created the entry.
    pub source: String,
    /// RFC 3339 time of the last change.
    pub updated_at: String,
}

/// The mathematical content of a [`DictionaryEntry`].
pub struct EntryView {
    pub id: Seq<char>,
    pub display: Seq<char>,
    pub aliases: Seq<Seq<char>>,
    pub source: Seq<char>,
    pub updated_at: Seq<char>,
}

/// The characters of each string of a list.
pub open spec fn strings_view(v: Seq<String>) -> Seq<Seq<char>> {
    v.map_values(|s: String| s@)
}

impl View for DictionaryEntry {
    type V = EntryView;

    open spec fn view(&self) -> EntryView {
        EntryView {
            id: self.id@,
            display: self.display@,
            aliases: strings_view(self.aliases@),
            source: self.source@,
            updated_at: self.updated_at@,
        }
    }
}

/// The content of each entry of a list.
pub open spec fn entries_view(s: Seq<DictionaryEntry>) -> Seq<EntryView> {
    s.map_values(|e: DictionaryEntry| e@)
}

/// Copies a list of strings.
pub fn copy_strings(v: &Vec<String>) -> (r: Vec<String>)
    ensures
        r@ == v@,
{
    let mut r: Vec<String> = Vec::new();
    let n = v.len();
    let mut i: usize = 0;
    while i < n
        invariant
            n == v.len(),
            i <= n,
            r@ == v@.take(i as int),
        decreases n - i,
    {
        r.push(v[i].clone());
        assert(v@.take(i + 1) =~= v@.take(i as int).push(v@[i as int]));
        i += 1;
    }
    assert(v@.take(n as int) =~= v@);
    r
}

impl DictionaryEntry {
    /// A copy of the entry.
    pub fn duplicate(&self) -> (r: DictionaryEntry)
        ensures
            r@ == self@,
    {
        DictionaryEntry {
            id: self.id.clone(),
            display: self.display.clone(),
            aliases: copy_strings(&self.aliases),
            source: self.source.clone(),
            updated_at: self.updated_at.clone(),
        }
    }
}

/// `c` is a lower-case hexadecimal digit.
pub open spec fn is_lower_hex(c: char) -> bool {
    ('0' <= c && c <= '9') || ('a' <= c && c <= 'f')
}

/// `s` is a version 4 (random) UUID in hyphenated lower-case form:
/// `xxxxxxxx-xxxx-4xxx-yxxx-xxxxxxxxxxxx` with `y` one of `8`, `9`, `a`, `b`.
pub open spec fn is_uuid_v4_text(s: Seq<char>) -> bool {
    &&& s.len() == 36
    &&& forall|i: int|
        0 <= i < 36 ==> if i == 8 || i == 13 || i == 18 || i == 23 {
            #[trigger] s[i] == '-'
        } else {
            is_lower_hex(s[i])
        }
    &&& s[14] == '4'
    &&& (s[19] == '8' || s[19] == '9' || s[19] == 'a' || s[19] == 'b')
}

/// Makes a fresh entry identifier with `uuid::Uuid::new_v4()` and renders it
/// with its `Display` impl, which writes the hyphenated lower-case form.
/// `new_v4` sets the version nibble to 4 and the variant bits to `10`; the
/// other 122 bits are random and left unsaid. (`new_v4` panics if the
/// operating system's random source fails.)
#[verifier::external_body]
fn new_entry_id() -> (id: String)
    ensures
        is_uuid_v4_text(id@),
{
    uuid::Uuid::new_v4().to_string()
}

/// The identifiers of a list of entries.
pub open spec fn ids_of(s: Seq<EntryView>) -> Seq<Seq<char>> {
    s.map_values(|e: EntryView| e.id)
}

/// At most as many different identifiers derived from one base can be in
/// use as there are entries.
proof fn lemma_derived_ids_in_use_bounded(s: Seq<EntryView>, base: Seq<char>, m: nat)
    requires
        base.len() == 36,
        m <= u64::MAX as nat + 1,
        forall|j: int| 0 <= j < m ==> has_id(s, #[trigger] derived_id(base, j as nat)),
    ensures
        m <= s.len(),
{
    let x = set_int_range(0, m as int);
    let f = |j: int| derived_id(base, j as nat);
    let y = x.map(f);
    lemma_int_range(0, m as int);
    assert(injective_on(f, x)) by {
        assert forall|a: int, b: int| x.contains(a) && x.contains(b) && #[trigger] f(a) == #[trigger] f(b) implies a == b by {
            if a != b {
                lemma_derived_ids_differ(base, a as u64, b as u64);
            }
        }
    }
    lemma_map_size(x, y, f);
    let ids = ids_of(s).to_set();
    assert(y.subset_of(ids)) by {
        assert forall|v: Seq<char>| y.contains(v) implies ids.contains(v) by {
            let j = choose|j: int| x.contains(j) && f(j) == v;
            assert(has_id(s, derived_id(base, j as nat)));
            let k = choose|k: int| 0 <= k < s.len() && #[trigger] s[k].id == derived_id(base, j as nat);
            assert(ids_of(s)[k] == v);
            assert(ids_of(s).contains(v));
        }
    }
    ids_of(s).lemma_cardinality_of_set();
    lemma_len_subset(y, ids);
}

/// A version 4 UUID that no entry of the list uses: a freshly drawn one,
/// or, in the rare case that it is taken, the first free identifier
/// derived from it by replacing 18 of its random digits by a counter.
pub fn fresh_entry_id(entries: &Vec<DictionaryEntry>) -> (id: String)
    ensures
        is_uuid_v4_text(id@),
        !has_id(entries_view(entries@), id@),
{
    let ghost s = entries_view(entries@);
    let base = new_entry_id();
    if find_entry(entries, base.as_str()).is_none() {
        return base;
    }
    let n = entries.len();
    let mut k: usize = 0;
    while k < n
        invariant
            n == entries.len(),
            k <= n,
            s == entries_view(entries@),
            is_uuid_v4_text(base@),
            forall|j: int| 0 <= j < k ==> has_id(s, #[trigger] derived_id(base@, j as nat)),
        decreases n - k,
    {
        let candidate = derive_id(&base, k as u64);
        if find_entry(entries, candidate.as_str()).is_none() {
            proof {
                lemma_derived_id_is_uuid(base@, k as nat);
            }
            return candidate;
        }
        k += 1;
    }
    let candidate = derive_id(&base, n as u64);
    proof {
        lemma_derived_id_is_uuid(base@, n as nat);
    }
    if find_entry(entries, candidate.as_str()).is_some() {
        proof {
            lemma_derived_ids_in_use_bounded(s, base@, (n + 1) as nat);
            assert(false);
        }
    }
    candidate
}

/// An entry made here carries a random UUID and the time it was made.
pub open spec fn is_fresh_entry(e: EntryView) -> bool {
    is_uuid_v4_text(e.id) && is_rfc3339_utc(e.updated_at)
}

/// The content of an entry built from its parts.
pub open spec fn new_entry_view(
    id: Seq<char>,
    display: Seq<char>,
    aliases: Seq<Seq<char>>,
    source: Seq<char>,
    updated_at: Seq<char>,
) -> EntryView {
    EntryView { id, display, aliases, source, updated_at }
}

/// Appends an entry with the given parts and returns a copy of it.
pub fn push_entry(
    entries: &mut Vec<DictionaryEntry>,
    id: String,
    display: String,
    aliases: Vec<String>,
    source: String,
    updated_at: String,
) -> (entry: DictionaryEntry)
    ensures
        entry@ == new_entry_view(id@, display@, strings_view(aliases@), source@, updated_at@),
        entries_view(final(entries)@) == entries_view(old(entries)@).push(entry@),
{
    let entry = DictionaryEntry { id, display, aliases, source, updated_at };
    let copy = entry.duplicate();
    entries.push(entry);
    copy
}

/// Adds a term made by this application, with a fresh random UUID and the
/// current RFC 3339 time, and returns it.
pub fn add_dictionary_entry(
    entries: &mut Vec<DictionaryEntry>,
    display: String,
    aliases: Vec<String>,
) -> (entry: DictionaryEntry)
    ensures
        entries_view(final(entries)@) == entries_view(old(entries)@).push(entry@),
        entry@.display == display@,
        entry@.aliases == strings_view(aliases@),
        entry@.source == "meetily"@,
        is_fresh_entry(entry@),
        !has_id(entries_view(old(entries)@), entry@.id),
        unique_ids(entries_view(old(entries)@)) ==> unique_ids(entries_view(final(entries)@)),
{
    let id = fresh_entry_id(entries);
    let updated_at = now_rfc3339();
    let entry = push_entry(entries, id, display, aliases, String::from_str("meetily"), updated_at);
    proof {
        lemma_added_entry_is_found(entries_view(old(entries)@), entry@);
    }
    entry
}

/// Entries whose identifier is not `id`.
pub open spec fn other_ids(id: Seq<char>) -> spec_fn(EntryView) -> bool {
    |e: EntryView| e.id != id
}

/// Removes every entry whose identifier is `id`, keeping the order of the rest.
pub fn remove_dictionary_entry(entries: &mut Vec<DictionaryEntry>, id: &str)
    ensures
        entries_view(final(entries)@) == entries_view(old(entries)@).filter(other_ids(id@)),
{
    let target = id.to_owned();
    let ghost all = entries_view(entries@);
    let mut kept: Vec<DictionaryEntry> = Vec::new();
    let n = entries.len();
    let mut i: usize = 0;
    while i < n
        invariant
            n == entries.len(),
            i <= n,
            target@ == id@,
            all == entries_view(entries@),
            entries_view(kept@) == all.take(i as int).filter(other_ids(id@)),
        decreases n - i,
    {
        let e = &entries[i];
        assert(all.take(i + 1) =~= all.take(i as int).push(e@));
        if !(e.id == target) {
            kept.push(e.duplicate());
        }
        i += 1;
    }
    assert(all.take(n as int) =~= all);
    *entries = kept;
}

/// Whether some entry has identifier `id`.
pub open spec fn has_id(s: Seq<EntryView>, id: Seq<char>) -> bool {
    exists|k: int| 0 <= k < s.len() && #[trigger] s[k].id == id
}

/// `k` is the position of the first entry with identifier `id`.
pub open spec fn is_first_with_id(s: Seq<EntryView>, id: Seq<char>, k: int) -> bool {
    &&& 0 <= k < s.len()
    &&& s[k].id == id
    &&& forall|j: int| 0 <= j < k ==> #[trigger] s[j].id != id
}

/// The characters of an optional string.
pub open spec fn opt_string_view(o: Option<String>) -> Option<Seq<char>> {
    match o {
        Some(s) => Some(s@),
        None => None,
    }
}

/// The characters of an optional list of strings.
pub open spec fn opt_strings_view(o: Option<Vec<String>>) -> Option<Seq<Seq<char>>> {
    match o {
        Some(v) => Some(strings_view(v@)),
        None => None,
    }
}

/// An entry after an edit: each given part replaces the old one, and the
/// time of the change is recorded.
pub open spec fn edited_entry(
    e: EntryView,
    display: Option<Seq<char>>,
    aliases: Option<Seq<Seq<char>>>,
    updated_at: Seq<char>,
) -> EntryView {
    EntryView {
        display: match display {
            Some(d) => d,
            None => e.display,
        },
        aliases: match aliases {
            Some(a) => a,
            None => e.aliases,
        },
        updated_at,
        ..e
    }
}

/// Finds the position of the first entry with identifier `id`.
pub fn find_entry(entries: &Vec<DictionaryEntry>, id: &str) -> (pos: Option<usize>)
    ensures
        match pos {
            Some(k) => is_first_with_id(entries_view(entries@), id@, k as int),
            None => !has_id(entries_view(entries@), id@),
        },
{
    let target = id.to_owned();
    let ghost all = entries_view(entries@);
    let n = entries.len();
    let mut i: usize = 0;
    while i < n
        invariant
            n == entries.len(),
            i <= n,
            target@ == id@,
            all == entries_view(entries@),
            forall|j: int| 0 <= j < i ==> #[trigger] all[j].id != id@,
        decreases n - i,
    {
        if entries[i].id == target {
            return Some(i);
        }
        i += 1;
    }
    None
}

/// Edits the first entry with identifier `id`: a given display or alias
/// list replaces the old one, and `updated_at` is recorded. Returns a copy
/// of the edited entry, or the error "Entry not found" when no entry has
/// that identifier (the list is then unchanged).
pub fn edit_entry(
    entries: &mut Vec<DictionaryEntry>,
    id: &str,
    display: Option<String>,
    aliases: Option<Vec<String>>,
    updated_at: String,
) -> (result: Result<DictionaryEntry, String>)
    ensures
        match result {
            Ok(entry) => exists|k: int|
                {
                    &&& is_first_with_id(entries_view(old(entries)@), id@, k)
                    &&& entries_view(final(entries)@) == entries_view(old(entries)@).update(
                        k,
                        edited_entry(
                            entries_view(old(entries)@)[k],
                            opt_string_view(display),
                            opt_strings_view(aliases),
                            updated_at@,
                        ),
                    )
                    &&& entry@ == entries_view(final(entries)@)[k]
                },
            Err(msg) => {
                &&& !has_id(entries_view(old(entries)@), id@)
                &&& msg@ == "Entry not found"@
                &&& entries_view(final(entries)@) == entries_view(old(entries)@)
            },
        },
{
    match find_entry(entries, id) {
        None => Err(String::from_str("Entry not found")),
        Some(k) => {
            let ghost before = entries_view(entries@);
            let ghost new_display = opt_string_view(display);
            let ghost new_aliases = opt_strings_view(aliases);
            let mut entry = entries[k].duplicate();
            match display {
                Some(d) => {
                    entry.display = d;
                },
                None => {},
            }
            match aliases {
                Some(a) => {
                    entry.aliases = a;
                },
                None => {},
            }
            entry.updated_at = updated_at;
            let copy = entry.duplicate();
            entries.set(k, entry);
            assert(copy@ == edited_entry(before[k as int], new_display, new_aliases, updated_at@));
            assert(entries_view(entries@) =~= before.update(k as int, copy@));
            assert(is_first_with_id(before, id@, k as int));
            assert(entries_view(entries@)[k as int] == copy@);
            Ok(copy)
        },
    }
}

/// Edits the first entry with identifier `id` and stamps it with the
/// current RFC 3339 time; see [`edit_entry`]. The clock is read only once
/// the entry has been found.
pub fn update_dictionary_entry(
    entries: &mut Vec<DictionaryEntry>,
    id: &str,
    display: Option<String>,
    aliases: Option<Vec<String>>,
) -> (result: Result<DictionaryEntry, String>)
    ensures
        match result {
            Ok(entry) => exists|k: int|
                {
                    &&& is_first_with_id(entries_view(old(entries)@), id@, k)
                    &&& entries_view(final(entries)@) == entries_view(old(entries)@).update(
                        k,
                        edited_entry(
                            entries_view(old(entries)@)[k],
                            opt_string_view(display),
                            opt_strings_view(aliases),
                            entry@.updated_at,
                        ),
                    )
                    &&& entry@ == entries_view(final(entries)@)[k]
                    &&& is_rfc3339_utc(entry@.updated_at)
                },
            Err(msg) => {
                &&& !has_id(entries_view(old(entries)@), id@)
                &&& msg@ == "Entry not found"@
                &&& entries_view(final(entries)@) == entries_view(old(entries)@)
            },
        },
{
    match find_entry(entries, id) {
        None => Err(String::from_str("Entry not found")),
        Some(_) => {
            let now = now_rfc3339();
            edit_entry(entries, id, display, aliases, now)
        },
    }
}

/// One record of a VoiceInk dictionary export.
#[derive(Debug, Clone)]
pub struct VoiceInkEntry {
    pub word: Option<String>,
    pub replacement: Option<String>,
    pub original_word: Option<String>,
}

/// The content of a [`VoiceInkEntry`].
pub struct VoiceInkView {
    pub word: Option<Seq<char>>,
    pub replacement: Option<Seq<char>>,
    pub original_word: Option<Seq<char>>,
}

impl View for VoiceInkEntry {
    type V = VoiceInkView;

    open spec fn view(&self) -> VoiceInkView {
        VoiceInkView {
            word: opt_string_view(self.word),
            replacement: opt_string_view(self.replacement),
            original_word: opt_string_view(self.original_word),
        }
    }
}

/// The first of two optional strings that is present, else the empty string.
pub open spec fn first_present(a: Option<Seq<char>>, b: Option<Seq<char>>) -> Seq<char> {
    match a {
        Some(x) => x,
        None => match b {
            Some(y) => y,
            None => Seq::empty(),
        },
    }
}

/// The term a VoiceInk record shows: its replacement, else its word.
pub open spec fn voiceink_display(v: VoiceInkView) -> Seq<char> {
    first_present(v.replacement, v.word)
}

/// The spelling a VoiceInk record replaces: its original word, else its word.
pub open spec fn voiceink_alias(v: VoiceInkView) -> Seq<char> {
    first_present(v.original_word, v.word)
}

/// A record is imported when both its term and its alias are non-empty.
pub open spec fn voiceink_accepted(v: VoiceInkView) -> bool {
    voiceink_display(v).len() > 0 && voiceink_alias(v).len() > 0
}

/// The (term, alias) pairs that an import takes from the records, in order.
pub open spec fn imported_terms(s: Seq<VoiceInkView>) -> Seq<(Seq<char>, Seq<char>)>
    decreases s.len(),
{
    if s.len() == 0 {
        Seq::empty()
    } else {
        let rest = imported_terms(s.drop_last());
        let v = s.last();
        if voiceink_accepted(v) {
            rest.push((voiceink_display(v), voiceink_alias(v)))
        } else {
            rest
        }
    }
}

/// The content of each record of a list.
pub open spec fn voiceink_view(s: Seq<VoiceInkEntry>) -> Seq<VoiceInkView> {
    s.map_values(|v: VoiceInkEntry| v@)
}

/// An entry imported from VoiceInk for the pair `term`.
pub open spec fn is_imported_entry(e: EntryView, term: (Seq<char>, Seq<char>)) -> bool {
    &&& e.display == term.0
    &&& e.aliases == seq![term.1]
    &&& e.source == "voiceink-import"@
}

/// A copy of the first present string, else an empty string.
fn first_present_string(a: &Option<String>, b: &Option<String>) -> (r: String)
    ensures
        r@ == first_present(opt_string_view(*a), opt_string_view(*b)),
{
    match a {
        Some(x) => x.clone(),
        None => match b {
            Some(y) => y.clone(),
            None => String::new(),
        },
    }
}

/// Imports VoiceInk records: each record whose term and alias are both
/// non-empty becomes a new entry with that term, that single alias, source
/// "voiceink-import", a fresh random UUID and the current RFC 3339 time.
/// Returns how many entries were added; the existing entries stay in front,
/// unchanged.
pub fn import_voiceink_dictionary(
    entries: &mut Vec<DictionaryEntry>,
    records: &Vec<VoiceInkEntry>,
) -> (count: usize)
    ensures
        count == imported_terms(voiceink_view(records@)).len(),
        entries_view(final(entries)@).len() == entries_view(old(entries)@).len() + count,
        entries_view(final(entries)@).take(old(entries)@.len() as int) == entries_view(
            old(entries)@,
        ),
        forall|j: int|
            0 <= j < count ==> is_imported_entry(
                #[trigger] entries_view(final(entries)@)[old(entries)@.len() + j],
                imported_terms(voiceink_view(records@))[j],
            ) && is_fresh_entry(entries_view(final(entries)@)[old(entries)@.len() + j]),
        unique_ids(entries_view(old(entries)@)) ==> unique_ids(entries_view(final(entries)@)),
        forall|j: int|
            0 <= j < count ==> !has_id(
                entries_view(old(entries)@),
                #[trigger] entries_view(final(entries)@)[old(entries)@.len() + j].id,
            ),
{
    let ghost before = entries_view(entries@);
    let ghost recs = voiceink_view(records@);
    let ghost start = entries@.len();
    let n = records.len();
    let mut count: usize = 0;
    let mut i: usize = 0;
    while i < n
        invariant
            n == records.len(),
            i <= n,
            recs == voiceink_view(records@),
            start == before.len(),
            count == imported_terms(recs.take(i as int)).len(),
            count <= i,
            entries_view(entries@).len() == start + count,
            entries_view(entries@).take(start as int) == before,
            forall|j: int|
                0 <= j < count ==> is_imported_entry(
                    #[trigger] entries_view(entries@)[start + j],
                    imported_terms(recs.take(i as int))[j],
                ) && is_fresh_entry(entries_view(entries@)[start + j]),
            unique_ids(before) ==> unique_ids(entries_view(entries@)),
            forall|j: int|
                0 <= j < count ==> !has_id(before, #[trigger] entries_view(entries@)[start + j].id),
        decreases n - i,
    {
        let rec = &records[i];
        let ghost prev = entries_view(entries@);
        assert(recs.take(i + 1).drop_last() =~= recs.take(i as int));
        assert(recs.take(i + 1).last() == rec@);
        let display = first_present_string(&rec.replacement, &rec.word);
        let alias = first_present_string(&rec.original_word, &rec.word);
        if !display.as_str().is_empty() && !alias.as_str().is_empty() {
            let mut aliases: Vec<String> = Vec::new();
            aliases.push(alias);
            assert(strings_view(aliases@) =~= seq![voiceink_alias(rec@)]);
            let id = fresh_entry_id(entries);
            let updated_at = now_rfc3339();
            let added = push_entry(
                entries,
                id,
                display,
                aliases,
                String::from_str("voiceink-import"),
                updated_at,
            );
            assert(entries_view(entries@).take(start as int) =~= prev.take(start as int));
            proof {
                lemma_added_entry_is_found(prev, added@);
            }
            count += 1;
        }
        i += 1;
    }
    assert(recs.take(n as int) =~= recs);
    count
}

/// The error message when a VoiceInk export cannot be read.
pub fn voiceink_read_error(detail: &str) -> (msg: String)
    ensures
        msg@ == "Cannot read VoiceInk dictionary: "@ + detail@,
{
    let mut msg = String::from_str("Cannot read VoiceInk dictionary: ");
    msg.append(detail);
    msg
}

/// The error message when a VoiceInk export is not valid JSON.
pub fn voiceink_json_error(detail: &str) -> (msg: String)
    ensures
        msg@ == "Invalid JSON: "@ + detail@,
{
    let mut msg = String::from_str("Invalid JSON: ");
    msg.append(detail);
    msg
}

/// Filtering out an identifier that no entry has leaves a list as it is.
proof fn lemma_filter_without_id(s: Seq<EntryView>, id: Seq<char>)
    requires
        !has_id(s, id),
    ensures
        s.filter(other_ids(id)) == s,
    decreases s.len(),
{
    if s.len() > 0 {
        let rest = s.drop_last();
        assert(!has_id(rest, id)) by {
            assert forall|k: int| 0 <= k < rest.len() implies #[trigger] rest[k].id != id by {
                assert(s[k] == rest[k]);
            }
        }
        lemma_filter_without_id(rest, id);
        assert(rest.push(s.last()) =~= s);
        assert(s[s.len() - 1].id != id);
    }
}

/// After an identifier is removed, no entry has it any more.
pub proof fn lemma_removed_id_is_gone(s: Seq<EntryView>, id: Seq<char>)
    ensures
        !has_id(s.filter(other_ids(id)), id),
{
    let f = s.filter(other_ids(id));
    assert forall|k: int| 0 <= k < f.len() implies #[trigger] f[k].id != id by {
        s.lemma_filter_pred(other_ids(id), k);
    }
}

/// Removing the same identifier a second time changes nothing.
pub proof fn lemma_remove_is_idempotent(s: Seq<EntryView>, id: Seq<char>)
    ensures
        s.filter(other_ids(id)).filter(other_ids(id)) == s.filter(other_ids(id)),
{
    lemma_removed_id_is_gone(s, id);
    lemma_filter_without_id(s.filter(other_ids(id)), id);
}

/// Removing an entry that was just added, under an identifier no other
/// entry had, gives back the list from before the addition.
pub proof fn lemma_remove_undoes_add(s: Seq<EntryView>, added: EntryView)
    requires
        !has_id(s, added.id),
    ensures
        s.push(added).filter(other_ids(added.id)) == s,
{
    lemma_filter_without_id(s, added.id);
}

/// An edit never changes an entry's identifier or source.
pub proof fn lemma_edit_keeps_identity(
    e: EntryView,
    display: Option<Seq<char>>,
    aliases: Option<Seq<Seq<char>>>,
    updated_at: Seq<char>,
)
    ensures
        edited_entry(e, display, aliases, updated_at).id == e.id,
        edited_entry(e, display, aliases, updated_at).source == e.source,
{
}

/// Editing an entry and then editing it again with the parts it had before
/// restores its display and aliases.
pub proof fn lemma_edit_undone_by_edit(
    e: EntryView,
    display: Option<Seq<char>>,
    aliases: Option<Seq<Seq<char>>>,
    first_stamp: Seq<char>,
    second_stamp: Seq<char>,
)
    ensures
        edited_entry(
            edited_entry(e, display, aliases, first_stamp),
            Some(e.display),
            Some(e.aliases),
            second_stamp,
        ) == (EntryView { updated_at: second_stamp, ..e }),
{
}

/// No two entries share an identifier.
pub open spec fn unique_ids(s: Seq<EntryView>) -> bool {
    forall|i: int, j: int| 0 <= i < j < s.len() ==> #[trigger] s[i].id != #[trigger] s[j].id
}

/// An entry added under an identifier no other entry has is the one that a
/// lookup of that identifier finds, and identifiers stay unique.
pub proof fn lemma_added_entry_is_found(s: Seq<EntryView>, added: EntryView)
    requires
        !has_id(s, added.id),
    ensures
        is_first_with_id(s.push(added), added.id, s.len() as int),
        unique_ids(s) ==> unique_ids(s.push(added)),
{
    let t = s.push(added);
    assert forall|j: int| 0 <= j < s.len() implies #[trigger] t[j].id != added.id by {
        assert(t[j] == s[j]);
    }
    if unique_ids(s) {
        assert forall|i: int, j: int| 0 <= i < j < t.len() implies #[trigger] t[i].id != #[trigger] t[j].id by {
            if j < s.len() {
                assert(t[i] == s[i] && t[j] == s[j]);
            } else {
                assert(t[i] == s[i]);
            }
        }
    }
}

/// Editing an entry keeps identifiers unique.
pub proof fn lemma_edit_keeps_ids_unique(
    s: Seq<EntryView>,
    k: int,
    display: Option<Seq<char>>,
    aliases: Option<Seq<Seq<char>>>,
    updated_at: Seq<char>,
)
    requires
        unique_ids(s),
        0 <= k < s.len(),
    ensures
        unique_ids(s.update(k, edited_entry(s[k], display, aliases, updated_at))),
{
    let t = s.update(k, edited_entry(s[k], display, aliases, updated_at));
    assert forall|i: int, j: int| 0 <= i < j < t.len() implies #[trigger] t[i].id != #[trigger] t[j].id by {
        assert(t[i].id == s[i].id && t[j].id == s[j].id);
    }
}

/// Removing an identifier keeps the other identifiers unique.
pub proof fn lemma_remove_keeps_ids_unique(s: Seq<EntryView>, id: Seq<char>)
    requires
        unique_ids(s),
    ensures
        unique_ids(s.filter(other_ids(id))),
    decreases s.len(),
{
    if s.len() > 0 {
        let rest = s.drop_last();
        let last = s.last();
        assert(unique_ids(rest)) by {
            assert forall|i: int, j: int| 0 <= i < j < rest.len() implies #[trigger] rest[i].id
                != #[trigger] rest[j].id by {
                assert(rest[i] == s[i] && rest[j] == s[j]);
            }
        }
        lemma_remove_keeps_ids_unique(rest, id);
        assert(rest.push(last) =~= s);
        let f = rest.filter(other_ids(id));
        if other_ids(id)(last) {
            assert forall|i: int| 0 <= i < f.len() implies #[trigger] f[i].id != last.id by {
                assert(f.contains(f[i]));
                rest.lemma_filter_contains_rev(other_ids(id), f[i]);
                let m = choose|m: int| 0 <= m < rest.len() && rest[m] == f[i];
                assert(rest[m] == s[m]);
                assert(s[m].id != s[s.len() - 1].id);
            }
            let g = f.push(last);
            assert forall|i: int, j: int| 0 <= i < j < g.len() implies #[trigger] g[i].id
                != #[trigger] g[j].id by {
                if j < f.len() {
                    assert(g[i] == f[i] && g[j] == f[j]);
                } else {
                    assert(g[i] == f[i]);
                }
            }
        }
    }
}

} // verus!

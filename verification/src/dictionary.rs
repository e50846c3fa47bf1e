//! Data source: the dictionaryapi.dev REST service.
//!
//! The wire records have the exact shape the service returns; they are mapped
//! to `WordEntry` / `Definition` records before they leave this module.

use vstd::prelude::*;
use crate::model::{
    copy_opt_string, definitions_view, CoreError, CoreErrorView, Definition, DefinitionView,
    WordEntry, WordEntryView,
};
use crate::text::concat3;

verus! {

/// The service's entry point for English words.
pub const BASE_URL: &'static str = "https://api.dictionaryapi.dev/api/v2/entries/en";

/// The HTTP status with which the service answers for an unknown word.
pub const STATUS_NOT_FOUND: u16 = 404;

/// One definition as the service sends it.
#[derive(Debug)]
pub struct WireDefinition {
    pub definition: String,
    pub example: Option<String>,
}

/// A wire definition as text.
pub struct WireDefinitionView {
    pub definition: Seq<char>,
    pub example: Option<Seq<char>>,
}

impl View for WireDefinition {
    type V = WireDefinitionView;

    open spec fn view(&self) -> WireDefinitionView {
        WireDefinitionView { definition: self.definition@, example: self.example.deep_view() }
    }
}

/// One meaning (a part of speech and its definitions) as the service sends it.
#[derive(Debug)]
pub struct WireMeaning {
    pub part_of_speech: String,
    pub definitions: Vec<WireDefinition>,
}

/// A wire meaning as text.
pub struct WireMeaningView {
    pub part_of_speech: Seq<char>,
    pub definitions: Seq<WireDefinitionView>,
}

impl View for WireMeaning {
    type V = WireMeaningView;

    open spec fn view(&self) -> WireMeaningView {
        WireMeaningView {
            part_of_speech: self.part_of_speech@,
            definitions: self.definitions@.map_values(|d: WireDefinition| d@),
        }
    }
}

/// One entry as the service sends it.
#[derive(Debug)]
pub struct WireEntry {
    pub word: String,
    pub phonetic: Option<String>,
    pub meanings: Vec<WireMeaning>,
}

/// A wire entry as text.
pub struct WireEntryView {
    pub word: Seq<char>,
    pub phonetic: Option<Seq<char>>,
    pub meanings: Seq<WireMeaningView>,
}

impl View for WireEntry {
    type V = WireEntryView;

    open spec fn view(&self) -> WireEntryView {
        WireEntryView {
            word: self.word@,
            phonetic: self.phonetic.deep_view(),
            meanings: self.meanings@.map_values(|m: WireMeaning| m@),
        }
    }
}

/// The definitions that one meaning contributes: each of its definitions,
/// tagged with the meaning's part of speech.
pub open spec fn meaning_definitions(m: WireMeaningView) -> Seq<DefinitionView> {
    m.definitions.map_values(
        |d: WireDefinitionView|
            DefinitionView {
                part_of_speech: m.part_of_speech,
                meaning: d.definition,
                example: d.example,
            },
    )
}

/// The definitions of all meanings, meaning after meaning, in order.
pub open spec fn flatten_meanings(ms: Seq<WireMeaningView>) -> Seq<DefinitionView>
    decreases ms.len(),
{
    if ms.len() == 0 {
        Seq::empty()
    } else {
        flatten_meanings(ms.drop_last()) + meaning_definitions(ms.last())
    }
}

/// The domain record that a wire entry maps to.
pub open spec fn entry_view(w: WireEntryView) -> WordEntryView {
    WordEntryView { word: w.word, phonetic: w.phonetic, definitions: flatten_meanings(w.meanings) }
}

/// The message of the error for a word that the service does not know.
pub open spec fn no_entry_message(word: Seq<char>) -> Seq<char> {
    "no dictionary entry for '"@ + word + "'"@
}

/// Maps a wire entry to a domain entry: the definitions of all meanings are
/// flattened in order, each tagged with its meaning's part of speech.
pub fn map_entry(w: WireEntry) -> (r: WordEntry)
    ensures
        r@ == entry_view(w@),
{
    let ghost ms = w@.meanings;
    let mut definitions: Vec<Definition> = Vec::new();
    let n = w.meanings.len();
    let mut i: usize = 0;
    while i < n
        invariant
            n == w.meanings@.len(),
            ms == w@.meanings,
            i <= n,
            definitions_view(definitions@) =~= flatten_meanings(ms.take(i as int)),
        decreases n - i,
    {
        let m = &w.meanings[i];
        let ghost mv = m@;
        assert(mv == ms[i as int]);
        let k = m.definitions.len();
        let mut j: usize = 0;
        while j < k
            invariant
                k == m.definitions@.len(),
                mv == m@,
                j <= k,
                definitions_view(definitions@) =~= flatten_meanings(ms.take(i as int))
                    + meaning_definitions(mv).take(j as int),
            decreases k - j,
        {
            let d = &m.definitions[j];
            let def = Definition {
                part_of_speech: m.part_of_speech.clone(),
                meaning: d.definition.clone(),
                example: copy_opt_string(&d.example),
            };
            let ghost before = definitions_view(definitions@);
            definitions.push(def);
            assert(definitions_view(definitions@) =~= before.push(def@));
            assert(meaning_definitions(mv).take(j + 1) =~= meaning_definitions(mv).take(
                j as int,
            ).push(def@));
            j = j + 1;
        }
        assert(meaning_definitions(mv).take(k as int) =~= meaning_definitions(mv));
        assert(ms.take(i + 1).drop_last() =~= ms.take(i as int));
        assert(ms.take(i + 1).last() == mv);
        i = i + 1;
    }
    assert(ms.take(n as int) =~= ms);
    WordEntry { word: w.word, phonetic: w.phonetic, definitions }
}

/// The address of the entries for `word`.
pub fn word_url(word: &str) -> (r: String)
    ensures
        r@ == BASE_URL@ + "/"@ + word@,
{
    concat3(BASE_URL, "/", word)
}

/// The error for a word that the service does not know.
pub fn no_entry_error(word: &str) -> (e: CoreError)
    ensures
        e@ == (CoreErrorView::NotFound { message: no_entry_message(word@) }),
{
    CoreError::NotFound { message: concat3("no dictionary entry for '", word, "'") }
}

/// A lookup outcome as text.
pub open spec fn lookup_view(r: Result<WordEntry, CoreError>) -> Result<WordEntryView, CoreErrorView> {
    match r {
        Ok(e) => Ok(e@),
        Err(e) => Err(e@),
    }
}

/// What a lookup of `word` answers, given the HTTP status of the reply and its
/// body decoded as a list of entries (or the decoder's error text).
pub open spec fn lookup_outcome(word: Seq<char>, status: u16, body: Result<Vec<WireEntry>, String>) -> Result<
    WordEntryView,
    CoreErrorView,
> {
    if status == STATUS_NOT_FOUND {
        Err(CoreErrorView::NotFound { message: no_entry_message(word) })
    } else {
        match body {
            Err(msg) => Err(CoreErrorView::Decode { message: msg@ }),
            Ok(entries) => if entries@.len() == 0 {
                Err(CoreErrorView::NotFound { message: no_entry_message(word) })
            } else {
                Ok(entry_view(entries@[0]@))
            },
        }
    }
}

/// The outcome of a lookup of `word`: an unknown word (status 404, or an
/// empty list) is `NotFound`, an undecodable body is `Decode`, and otherwise
/// the first entry is mapped.
pub fn entry_from_reply(word: &str, status: u16, body: Result<Vec<WireEntry>, String>) -> (r:
    Result<WordEntry, CoreError>)
    ensures
        lookup_view(r) == lookup_outcome(word@, status, body),
{
    if status == STATUS_NOT_FOUND {
        return Err(no_entry_error(word));
    }
    match body {
        Err(msg) => Err(CoreError::Decode { message: msg }),
        Ok(entries) => {
            let mut entries = entries;
            if entries.len() == 0 {
                Err(no_entry_error(word))
            } else {
                let first = entries.swap_remove(0);
                Ok(map_entry(first))
            }
        },
    }
}

/// The entries that were found, in order: every `Ok` of `results`.
pub open spec fn found_entries(results: Seq<Result<WordEntry, CoreError>>) -> Seq<WordEntryView>
    decreases results.len(),
{
    if results.len() == 0 {
        Seq::empty()
    } else {
        found_entries(results.drop_last()) + match results.last() {
            Ok(e) => seq![e@],
            Err(_) => Seq::empty(),
        }
    }
}

/// Keeps the entries of the lookups that succeeded, in order, so that one
/// unknown word does not fail a whole batch.
pub fn collect_found(results: Vec<Result<WordEntry, CoreError>>) -> (r: Vec<WordEntry>)
    ensures
        r@.map_values(|e: WordEntry| e@) == found_entries(results@),
{
    let mut out: Vec<WordEntry> = Vec::new();
    let n = results.len();
    let mut i: usize = 0;
    while i < n
        invariant
            n == results@.len(),
            i <= n,
            out@.map_values(|e: WordEntry| e@) =~= found_entries(results@.take(i as int)),
        decreases n - i,
    {
        let ghost before = out@.map_values(|e: WordEntry| e@);
        assert(results@.take(i + 1).drop_last() =~= results@.take(i as int));
        match &results[i] {
            Ok(e) => {
                let c = e.clone();
                out.push(c);
                assert(out@.map_values(|e: WordEntry| e@) =~= before.push(c@));
            },
            Err(_) => {},
        }
        i = i + 1;
    }
    assert(results@.take(n as int) =~= results@);
    out
}

} // verus!

verus! {

/// The number of wire definitions over all meanings.
pub open spec fn definition_count(ms: Seq<WireMeaningView>) -> nat
    decreases ms.len(),
{
    if ms.len() == 0 {
        0
    } else {
        definition_count(ms.drop_last()) + ms.last().definitions.len()
    }
}

/// A prefix of the meanings holds no more definitions than all of them.
proof fn lemma_count_prefix(ms: Seq<WireMeaningView>, i: int)
    requires
        0 <= i <= ms.len(),
    ensures
        definition_count(ms.take(i)) <= definition_count(ms),
    decreases ms.len(),
{
    if i < ms.len() {
        assert(ms.take(i) =~= ms.drop_last().take(i));
        lemma_count_prefix(ms.drop_last(), i);
    } else {
        assert(ms.take(i) =~= ms);
    }
}

/// One more meaning adds its definitions to the count.
proof fn lemma_count_step(ms: Seq<WireMeaningView>, i: int)
    requires
        0 <= i < ms.len(),
    ensures
        definition_count(ms.take(i + 1)) == definition_count(ms.take(i)) + ms[i].definitions.len(),
{
    assert(ms.take(i + 1).drop_last() =~= ms.take(i));
}

/// Flattening keeps every wire definition, once, in order: the result has as
/// many definitions as all meanings together, and definition `j` of meaning
/// `i` stands at the position after all definitions of the earlier meanings,
/// with its text and example and the meaning's part of speech.
pub proof fn lemma_flatten_keeps_every_definition(ms: Seq<WireMeaningView>)
    ensures
        flatten_meanings(ms).len() == definition_count(ms),
        forall|i: int, j: int|
            0 <= i < ms.len() && 0 <= j < ms[i].definitions.len() ==> #[trigger] flatten_meanings(
                ms,
            )[definition_count(ms.take(i)) + j] == (DefinitionView {
                part_of_speech: ms[i].part_of_speech,
                meaning: ms[i].definitions[j].definition,
                example: ms[i].definitions[j].example,
            }),
    decreases ms.len(),
{
    if ms.len() > 0 {
        let p = ms.drop_last();
        let last = ms.last();
        lemma_flatten_keeps_every_definition(p);
        assert forall|i: int, j: int|
            0 <= i < ms.len() && 0 <= j < ms[i].definitions.len() implies #[trigger] flatten_meanings(
                ms,
            )[definition_count(ms.take(i)) + j] == (DefinitionView {
                part_of_speech: ms[i].part_of_speech,
                meaning: ms[i].definitions[j].definition,
                example: ms[i].definitions[j].example,
            }) by {
            if i < ms.len() - 1 {
                assert(ms.take(i) =~= p.take(i));
                assert(ms[i] == p[i]);
                lemma_count_step(p, i);
                lemma_count_prefix(p, i + 1);
                assert(flatten_meanings(p)[definition_count(p.take(i)) + j] == (DefinitionView {
                    part_of_speech: p[i].part_of_speech,
                    meaning: p[i].definitions[j].definition,
                    example: p[i].definitions[j].example,
                }));
            } else {
                assert(ms.take(i) =~= p);
            }
        }
    }
}

/// A mapped entry keeps the entry's word and phonetic, and holds every wire
/// definition of every meaning, in order, tagged with its meaning's part of
/// speech.
pub proof fn lemma_map_entry_keeps_everything(w: WireEntryView)
    ensures
        entry_view(w).word == w.word,
        entry_view(w).phonetic == w.phonetic,
        entry_view(w).definitions.len() == definition_count(w.meanings),
        forall|i: int, j: int|
            0 <= i < w.meanings.len() && 0 <= j < w.meanings[i].definitions.len()
                ==> #[trigger] entry_view(w).definitions[definition_count(w.meanings.take(i)) + j]
                == (DefinitionView {
                part_of_speech: w.meanings[i].part_of_speech,
                meaning: w.meanings[i].definitions[j].definition,
                example: w.meanings[i].definitions[j].example,
            }),
{
    lemma_flatten_keeps_every_definition(w.meanings);
}

/// A lookup answered with a status other than 404 and a non-empty list is the
/// first entry, mapped: its word, its phonetic and all its definitions.
pub proof fn lemma_lookup_gives_first_entry(word: Seq<char>, status: u16, entries: Vec<WireEntry>)
    requires
        status != STATUS_NOT_FOUND,
        entries@.len() > 0,
    ensures
        lookup_outcome(word, status, Ok(entries)) == Ok::<WordEntryView, CoreErrorView>(
            entry_view(entries@[0]@),
        ),
        lookup_outcome(word, status, Ok(entries)) matches Ok(v) && v.word == entries@[0]@.word
            && v.phonetic == entries@[0]@.phonetic && v.definitions.len() == definition_count(
            entries@[0]@.meanings,
        ),
{
    lemma_map_entry_keeps_everything(entries@[0]@);
}

/// A lookup answered with 404 is `NotFound` for the word, whatever the body;
/// an undecodable body (with any other status) is `Decode` with the
/// decoder's text; an empty list is `NotFound`.
pub proof fn lemma_lookup_failures(word: Seq<char>, status: u16, body: Result<Vec<WireEntry>, String>)
    ensures
        status == STATUS_NOT_FOUND ==> lookup_outcome(word, status, body) == Err::<
            WordEntryView,
            CoreErrorView,
        >(CoreErrorView::NotFound { message: no_entry_message(word) }),
        status != STATUS_NOT_FOUND && body is Err ==> lookup_outcome(word, status, body) == Err::<
            WordEntryView,
            CoreErrorView,
        >(CoreErrorView::Decode { message: body->Err_0@ }),
        status != STATUS_NOT_FOUND && body is Ok && body->Ok_0@.len() == 0 ==> lookup_outcome(
            word,
            status,
            body,
        ) is Err,
{
}

/// Whether a lookup succeeded.
pub open spec fn is_found(r: Result<WordEntry, CoreError>) -> bool {
    r is Ok
}

/// The entry of a successful lookup, as text.
pub open spec fn found_view(r: Result<WordEntry, CoreError>) -> WordEntryView {
    r->Ok_0@
}

/// One more lookup adds its entry when it succeeded, and nothing when it failed.
pub proof fn lemma_found_push(s: Seq<Result<WordEntry, CoreError>>, x: Result<WordEntry, CoreError>)
    ensures
        x is Ok ==> found_entries(s.push(x)) == found_entries(s).push(x->Ok_0@),
        x is Err ==> found_entries(s.push(x)) == found_entries(s),
{
    assert(s.push(x).drop_last() =~= s);
    assert(s.push(x).last() == x);
}

/// No lookup, no entry.
pub proof fn lemma_found_empty()
    ensures
        found_entries(Seq::<Result<WordEntry, CoreError>>::empty()) == Seq::<WordEntryView>::empty(),
{
}

/// The entries of two batches in a row are the entries of the first, then
/// those of the second.
pub proof fn lemma_found_append(a: Seq<Result<WordEntry, CoreError>>, b: Seq<Result<WordEntry, CoreError>>)
    ensures
        found_entries(a + b) == found_entries(a) + found_entries(b),
    decreases b.len(),
{
    if b.len() == 0 {
        assert(a + b =~= a);
        assert(found_entries(a) + found_entries(b) =~= found_entries(a));
    } else {
        let x = b.last();
        let c = b.drop_last();
        assert(a + b =~= (a + c).push(x));
        assert(b =~= c.push(x));
        lemma_found_append(a, c);
        lemma_found_push(a + c, x);
        lemma_found_push(c, x);
        if x is Ok {
            assert(found_entries(a) + found_entries(c).push(x->Ok_0@) =~= (found_entries(a)
                + found_entries(c)).push(x->Ok_0@));
        }
    }
}

/// The entries kept are exactly the successful lookups, in order, each one's
/// entry: every success is kept and every failure is skipped.
pub proof fn lemma_found_is_the_successes(s: Seq<Result<WordEntry, CoreError>>)
    ensures
        found_entries(s) == s.filter(|r: Result<WordEntry, CoreError>| is_found(r)).map_values(
            |r: Result<WordEntry, CoreError>| found_view(r),
        ),
    decreases s.len(),
{
    reveal_with_fuel(Seq::filter, 1);
    if s.len() > 0 {
        let p = s.drop_last();
        lemma_found_is_the_successes(p);
        assert(s =~= p.push(s.last()));
        lemma_found_push(p, s.last());
        let f = p.filter(|r: Result<WordEntry, CoreError>| is_found(r));
        if s.last() is Ok {
            assert(f.push(s.last()).map_values(|r: Result<WordEntry, CoreError>| found_view(r))
                =~= f.map_values(|r: Result<WordEntry, CoreError>| found_view(r)).push(
                s.last()->Ok_0@,
            ));
        }
    }
}

} // verus!

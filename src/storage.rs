//! Local ticket files: their names, and which of them belong to a ticket and a
//! language. A ticket's file is named "{id}_{status}.json", and a translation
//! "{id}_{status}_{lang}.json".

use vstd::prelude::*;

use crate::consumer::same_text;
use crate::models::{status_code_of, Ticket};
use crate::text::{decimal_text, u64_text};

verus! {

/// The directory that ticket files are kept under.
#[derive(Clone, Debug)]
pub struct Storage {
    data_dir: String,
}

/// The name of a numeric ticket status.
pub open spec fn status_name_of(status: i32) -> Seq<char> {
    if status == 2 {
        "open"@
    } else if status == 3 {
        "pending"@
    } else if status == 4 {
        "resolved"@
    } else if status == 5 {
        "closed"@
    } else {
        "unknown"@
    }
}

/// The parts of `s` between the occurrences of `sep`, as `str::split` gives
/// them: one more part than there are separators.
pub open spec fn split_on(s: Seq<char>, sep: char) -> Seq<Seq<char>>
    decreases s.len(),
{
    if s.len() == 0 {
        seq![Seq::empty()]
    } else {
        let p = split_on(s.drop_last(), sep);
        if s.last() == sep {
            p.push(Seq::empty())
        } else {
            p.update(p.len() - 1, p.last().push(s.last()))
        }
    }
}

/// The parts of a file stem.
pub open spec fn stem_parts(stem: Seq<char>) -> Seq<Seq<char>> {
    split_on(stem, '_')
}

/// The language of a file stem: its third part, if it has one.
pub open spec fn stem_lang(stem: Seq<char>) -> Option<Seq<char>> {
    if stem_parts(stem).len() > 2 {
        Some(stem_parts(stem)[2])
    } else {
        None
    }
}

/// An optional language as a sequence.
pub open spec fn lang_view(lang: Option<&str>) -> Option<Seq<char>> {
    match lang {
        Some(l) => Some(l@),
        None => None,
    }
}

/// The name of the file of `t` in language `lang` (untranslated if none).
pub open spec fn ticket_filename_of(t: Ticket, lang: Option<Seq<char>>) -> Seq<char> {
    decimal_text(t.id as int) + "_"@ + status_name_of(status_code_of(t.status)) + match lang {
        Some(l) => "_"@ + l,
        None => Seq::empty(),
    } + ".json"@
}

/// Whether `s` starts with `prefix`.
pub open spec fn starts_with(s: Seq<char>, prefix: Seq<char>) -> bool {
    prefix.len() <= s.len() && s.subrange(0, prefix.len() as int) == prefix
}

/// Splits `s` at every `sep`.
pub fn split_text(s: &str, sep: char) -> (r: Vec<String>)
    ensures
        r@.len() == split_on(s@, sep).len(),
        forall|i: int| 0 <= i < r@.len() ==> #[trigger] r@[i]@ == split_on(s@, sep)[i],
{
    let n = s.unicode_len();
    let mut done: Vec<String> = Vec::new();
    let mut start: usize = 0;
    let mut i: usize = 0;
    while i < n
        invariant
            n == s@.len(),
            start <= i <= n,
            done@.len() + 1 == split_on(s@.take(i as int), sep).len(),
            forall|k: int|
                0 <= k < done@.len() ==> #[trigger] done@[k]@ == split_on(s@.take(i as int), sep)[k],
            s@.subrange(start as int, i as int) == split_on(s@.take(i as int), sep).last(),
        decreases n - i,
    {
        let c = s.get_char(i);
        let ghost before = s@.take(i as int);
        proof {
            assert(s@.take(i as int + 1).drop_last() =~= before);
            assert(s@.take(i as int + 1).last() == c);
        }
        if c == sep {
            done.push(String::from_str(s.substring_char(start, i)));
            start = i + 1;
            i = i + 1;
            proof {
                assert(s@.subrange(start as int, i as int) =~= Seq::<char>::empty());
            }
        } else {
            i = i + 1;
            proof {
                assert(s@.subrange(start as int, i as int) =~= s@.subrange(
                    start as int,
                    i as int - 1,
                ).push(c));
            }
        }
    }
    proof {
        assert(s@.take(n as int) =~= s@);
    }
    done.push(String::from_str(s.substring_char(start, n)));
    done
}

impl Storage {
    /// The storage under `output_dir`.
    pub fn new(output_dir: &str) -> (r: Storage)
        ensures
            r.dir()@ == output_dir@,
    {
        Storage { data_dir: String::from_str(output_dir) }
    }

    /// The directory.
    pub closed spec fn dir(&self) -> String {
        self.data_dir
    }

    /// The directory.
    pub fn data_dir(&self) -> (r: &str)
        ensures
            r@ == self.dir()@,
    {
        self.data_dir.as_str()
    }

    /// The name of a numeric ticket status: "open", "pending", "resolved",
    /// "closed", or "unknown".
    pub fn status_name(status: i32) -> (r: &'static str)
        ensures
            r@ == status_name_of(status),
    {
        match status {
            2 => "open",
            3 => "pending",
            4 => "resolved",
            5 => "closed",
            _ => "unknown",
        }
    }

    /// The name of the file of `ticket` in language `lang`, or of the
    /// untranslated ticket if there is none.
    pub fn ticket_filename(ticket: &Ticket, lang: Option<&str>) -> (r: String)
        ensures
            r@ == ticket_filename_of(*ticket, lang_view(lang)),
    {
        let mut name = u64_text(ticket.id);
        name.append("_");
        name.append(Self::status_name(ticket.status.code()));
        match lang {
            Some(l) => {
                name.append("_");
                name.append(l);
            },
            None => {},
        }
        name.append(".json");
        name
    }

    /// The language of a file stem: its third part, if it has one.
    pub fn file_lang(stem: &str) -> (r: Option<String>)
        ensures
            match (r, stem_lang(stem@)) {
                (Some(a), Some(b)) => a@ == b,
                (None, None) => true,
                _ => false,
            },
    {
        let parts = split_text(stem, '_');
        if parts.len() > 2 {
            Some(parts[2].clone())
        } else {
            None
        }
    }

    /// Whether the file stem `stem` is that of ticket `ticket_id` in language
    /// `lang`: at least two parts, the first the id's digits, and the third,
    /// if any, the language.
    pub fn stem_matches(stem: &str, ticket_id: u64, lang: Option<&str>) -> (r: bool)
        ensures
            r == (stem_parts(stem@).len() >= 2 && stem_parts(stem@)[0] == decimal_text(
                ticket_id as int,
            ) && stem_lang(stem@) == lang_view(lang)),
    {
        let parts = split_text(stem, '_');
        if parts.len() < 2 {
            return false;
        }
        let id = u64_text(ticket_id);
        if !same_text(parts[0].as_str(), id.as_str()) {
            return false;
        }
        let file_lang = Self::file_lang(stem);
        match (file_lang, lang) {
            (Some(a), Some(b)) => same_text(a.as_str(), b),
            (None, None) => true,
            _ => false,
        }
    }

    /// Whether the file stem `stem` is an earlier file of ticket `ticket_id`
    /// in language `lang`, to be removed before its new file is written: it
    /// starts with the id's digits and '_', and its language is `lang`.
    pub fn is_old_file(stem: &str, ticket_id: u64, lang: Option<&str>) -> (r: bool)
        ensures
            r == (starts_with(stem@, decimal_text(ticket_id as int) + "_"@) && stem_lang(stem@)
                == lang_view(lang)),
    {
        let mut prefix = u64_text(ticket_id);
        prefix.append("_");
        let p = prefix.as_str();
        let plen = p.unicode_len();
        let slen = stem.unicode_len();
        if plen > slen {
            return false;
        }
        if !same_text(stem.substring_char(0, plen), p) {
            return false;
        }
        let file_lang = Self::file_lang(stem);
        match (file_lang, lang) {
            (Some(a), Some(b)) => same_text(a.as_str(), b),
            (None, None) => true,
            _ => false,
        }
    }

    /// Whether an untranslated ticket file named `file_name` has to be renamed
    /// to `expected`: it has no language part and another name.
    pub fn needs_rename(file_name: &str, expected: &str) -> (r: bool)
        ensures
            r == (split_on(file_name@, '_').len() <= 2 && file_name@ != expected@),
    {
        let parts = split_text(file_name, '_');
        parts.len() <= 2 && !same_text(file_name, expected)
    }
}


/// A ticket file read from disk: the language its name gives, and the
/// ticket it holds.
#[derive(Clone, Debug)]
pub struct ListedFile {
    pub lang: Option<String>,
    pub ticket: Ticket,
}

/// Whether a file can stand for its ticket in a listing in language `pref`:
/// an untranslated file always can, a translation only in the preferred language.
pub open spec fn can_stand_for(f: ListedFile, pref: Option<Seq<char>>) -> bool {
    f.lang is None || (pref is Some && f.lang->0@ == pref->0)
}

/// The languages of the translations of ticket `id` among `files`, in order.
pub open spec fn langs_of(files: Seq<ListedFile>, id: u64) -> Seq<Seq<char>>
    decreases files.len(),
{
    if files.len() == 0 {
        Seq::empty()
    } else {
        let p = langs_of(files.drop_last(), id);
        let f = files.last();
        if f.ticket.id == id && f.lang is Some {
            p.push(f.lang->0@)
        } else {
            p
        }
    }
}

/// The last file that can stand for ticket `id`, if any.
pub open spec fn chosen_of(files: Seq<ListedFile>, id: u64, pref: Option<Seq<char>>) -> Option<int>
    decreases files.len(),
{
    if files.len() == 0 {
        None
    } else if files.last().ticket.id == id && can_stand_for(files.last(), pref) {
        Some(files.len() - 1)
    } else {
        chosen_of(files.drop_last(), id, pref)
    }
}

/// The chosen file is one of `files`, holds ticket `id`, and can stand for it.
proof fn lemma_chosen_in_range(files: Seq<ListedFile>, id: u64, pref: Option<Seq<char>>)
    ensures
        chosen_of(files, id, pref) matches Some(c) ==> 0 <= c < files.len() && files[c].ticket.id
            == id && can_stand_for(files[c], pref),
    decreases files.len(),
{
    if files.len() > 0 {
        lemma_chosen_in_range(files.drop_last(), id, pref);
    }
}

/// Whether ticket `id` is listed: some file stands for it, and, when a
/// language is preferred, a translation into it exists.
pub open spec fn is_listed(files: Seq<ListedFile>, id: u64, pref: Option<Seq<char>>) -> bool {
    &&& chosen_of(files, id, pref) is Some
    &&& (pref is None || langs_of(files, id).contains(pref->0))
}

/// `t` is the ticket `f` holds, with the languages `langs`.
pub open spec fn is_listing_of(t: Ticket, f: Ticket, langs: Seq<Seq<char>>) -> bool {
    &&& t.id == f.id
    &&& t.external_id == f.external_id
    &&& t.subject == f.subject
    &&& t.description_text == f.description_text
    &&& t.content == f.content
    &&& t.status == f.status
    &&& t.priority == f.priority
    &&& t.created_at == f.created_at
    &&& t.updated_at == f.updated_at
    &&& t.requester_id == f.requester_id
    &&& t.responder_id == f.responder_id
    &&& t.cc_emails@ == f.cc_emails@
    &&& t.conversations@ == f.conversations@
    &&& t.available_langs@.len() == langs.len()
    &&& forall|k: int| 0 <= k < langs.len() ==> #[trigger] t.available_langs@[k]@ == langs[k]
}

/// The languages of ticket `id`, and the file that stands for it.
fn gather(files: &Vec<ListedFile>, id: u64, pref: Option<&str>) -> (r: (Vec<String>, Option<usize>))
    ensures
        r.0@.len() == langs_of(files@, id).len(),
        forall|k: int| 0 <= k < r.0@.len() ==> #[trigger] r.0@[k]@ == langs_of(files@, id)[k],
        match (r.1, chosen_of(files@, id, lang_view(pref))) {
            (Some(a), Some(b)) => a as int == b,
            (None, None) => true,
            _ => false,
        },
{
    let mut langs: Vec<String> = Vec::new();
    let mut chosen: Option<usize> = None;
    let mut j: usize = 0;
    while j < files.len()
        invariant
            j <= files@.len(),
            langs@.len() == langs_of(files@.take(j as int), id).len(),
            forall|k: int|
                0 <= k < langs@.len() ==> #[trigger] langs@[k]@ == langs_of(
                    files@.take(j as int),
                    id,
                )[k],
            match (chosen, chosen_of(files@.take(j as int), id, lang_view(pref))) {
                (Some(a), Some(b)) => a as int == b,
                (None, None) => true,
                _ => false,
            },
        decreases files@.len() - j,
    {
        let f = &files[j];
        proof {
            assert(files@.take(j as int + 1).drop_last() =~= files@.take(j as int));
            assert(files@.take(j as int + 1).last() == files@[j as int]);
        }
        if f.ticket.id == id {
            match &f.lang {
                Some(l) => {
                    langs.push(l.clone());
                    let stands = match pref {
                        Some(p) => same_text(l.as_str(), p),
                        None => false,
                    };
                    if stands {
                        chosen = Some(j);
                    }
                },
                None => {
                    chosen = Some(j);
                },
            }
        }
        j = j + 1;
    }
    proof {
        assert(files@.take(j as int) =~= files@);
    }
    (langs, chosen)
}

/// Whether `langs` holds `l`.
fn holds_lang(langs: &Vec<String>, l: &str) -> (r: bool)
    ensures
        r == exists|k: int| 0 <= k < langs@.len() && langs@[k]@ == l@,
{
    let mut k: usize = 0;
    while k < langs.len()
        invariant
            k <= langs@.len(),
            forall|i: int| 0 <= i < k ==> langs@[i]@ != l@,
        decreases langs@.len() - k,
    {
        if same_text(langs[k].as_str(), l) {
            return true;
        }
        k = k + 1;
    }
    false
}

impl Storage {
    /// The tickets to list from the files read: one per ticket id, newest id
    /// first. A ticket is represented by the last of its files that is the
    /// untranslated or in the preferred language, and carries the languages of
    /// all its translations; when a language is preferred, only tickets
    /// translated into it are listed.
    pub fn assemble_listing(files: &Vec<ListedFile>, preferred_lang: Option<&str>) -> (r: Vec<
        Ticket,
    >)
        ensures
            forall|i: int, j: int| 0 <= i < j < r@.len() ==> r@[i].id > r@[j].id,
            forall|k: int|
                0 <= k < r@.len() ==> {
                    let id = (#[trigger] r@[k]).id;
                    &&& is_listed(files@, id, lang_view(preferred_lang))
                    &&& is_listing_of(
                        r@[k],
                        files@[chosen_of(files@, id, lang_view(preferred_lang))->0].ticket,
                        langs_of(files@, id),
                    )
                },
            forall|j: int|
                0 <= j < files@.len() && is_listed(files@, #[trigger] files@[j].ticket.id, lang_view(preferred_lang))
                    ==> exists|k: int| 0 <= k < r@.len() && r@[k].id == files@[j].ticket.id,
    {
        let ghost pref = lang_view(preferred_lang);
        let mut r: Vec<Ticket> = Vec::new();
        let mut i: usize = 0;
        while i < files.len()
            invariant
                i <= files@.len(),
                pref == lang_view(preferred_lang),
                forall|a: int, b: int| 0 <= a < b < r@.len() ==> r@[a].id > r@[b].id,
                forall|k: int|
                    0 <= k < r@.len() ==> {
                        let id = (#[trigger] r@[k]).id;
                        &&& is_listed(files@, id, pref)
                        &&& is_listing_of(
                            r@[k],
                            files@[chosen_of(files@, id, pref)->0].ticket,
                            langs_of(files@, id),
                        )
                    },
                forall|j: int|
                    0 <= j < i && is_listed(files@, #[trigger] files@[j].ticket.id, pref) ==> exists|k: int|
                        0 <= k < r@.len() && r@[k].id == files@[j].ticket.id,
            decreases files@.len() - i,
        {
            let id = files[i].ticket.id;
            let mut p: usize = 0;
            while p < r.len() && r[p].id > id
                invariant
                    p <= r@.len(),
                    forall|a: int| 0 <= a < p ==> r@[a].id > id,
                decreases r@.len() - p,
            {
                p = p + 1;
            }
            if p < r.len() && r[p].id == id {
                // already listed
            } else {
                let (langs, chosen) = gather(files, id, preferred_lang);
                let listed = match chosen {
                    Some(c) => match preferred_lang {
                        Some(l) => holds_lang(&langs, l),
                        None => true,
                    },
                    None => false,
                };
                proof {
                    if listed {
                        if let Some(l) = preferred_lang {
                            let k = choose|k: int| 0 <= k < langs@.len() && langs@[k]@ == l@;
                            assert(langs_of(files@, id)[k] == l@);
                        }
                    } else if chosen is Some && preferred_lang is Some {
                        let l = preferred_lang->0;
                        assert forall|k: int| 0 <= k < langs_of(files@, id).len() implies langs_of(
                            files@,
                            id,
                        )[k] != l@ by {
                            assert(langs@[k]@ == langs_of(files@, id)[k]);
                        }
                    }
                }
                if listed {
                    let c = match chosen {
                        Some(c) => c,
                        None => 0,
                    };
                    proof {
                        lemma_chosen_in_range(files@, id, pref);
                    }
                    let mut t = files[c].ticket.duplicate();
                    t.available_langs = langs;
                    let ghost before = r@;
                    let ghost tt = t;
                    proof {
                        assert(p < before.len() ==> before[p as int].id < id);
                        assert(forall|a: int| 0 <= a < p ==> before[a].id > id);
                    }
                    r.insert(p, t);
                    proof {
                        assert(r@ == before.insert(p as int, tt));
                        assert(r@[p as int] == tt);
                        assert(forall|k: int| 0 <= k < p ==> r@[k] == before[k]);
                        assert(forall|k: int| p < k < r@.len() ==> r@[k] == before[k - 1]);
                        assert forall|a: int, b: int| 0 <= a < b < r@.len() implies r@[a].id
                            > r@[b].id by {
                            if b < p {
                                assert(r@[a] == before[a] && r@[b] == before[b]);
                            } else if b == p {
                                assert(r@[a] == before[a]);
                            } else if a < p {
                                assert(r@[a] == before[a] && r@[b] == before[b - 1]);
                                if b - 1 > p {
                                    assert(before[p as int].id > before[b - 1].id);
                                }
                            } else if a == p {
                                assert(r@[b] == before[b - 1]);
                                if b - 1 > p {
                                    assert(before[p as int].id > before[b - 1].id);
                                }
                            } else {
                                assert(r@[a] == before[a - 1]);
                                assert(r@[b] == before[b - 1]);
                            }
                        }
                        assert forall|k: int| 0 <= k < r@.len() implies {
                            let id2 = (#[trigger] r@[k]).id;
                            &&& is_listed(files@, id2, pref)
                            &&& is_listing_of(
                                r@[k],
                                files@[chosen_of(files@, id2, pref)->0].ticket,
                                langs_of(files@, id2),
                            )
                        } by {
                            if k < p {
                                assert(r@[k] == before[k]);
                            } else if k > p {
                                assert(r@[k] == before[k - 1]);
                            }
                        }
                        assert forall|j: int|
                            0 <= j < i + 1 && is_listed(
                                files@,
                                #[trigger] files@[j].ticket.id,
                                pref,
                            ) implies exists|k: int| 0 <= k < r@.len() && r@[k].id == files@[j].ticket.id by {
                            if j < i {
                                let k0 = choose|k: int|
                                    0 <= k < before.len() && before[k].id == files@[j].ticket.id;
                                if k0 < p {
                                    assert(r@[k0] == before[k0]);
                                } else {
                                    assert(r@[k0 + 1] == before[k0]);
                                }
                            } else {
                                assert(r@[p as int].id == id);
                            }
                        }
                    }
                }
            }
            i = i + 1;
        }
        r
    }
}

} // verus!

//! The text of a model listing, and the choice of downloaded models among directory entries.

use crate::codec::{decimal, decimal_text};
use crate::models::registry::{
    models_view, spec_engine_label, texts_view, EngineType, ModelInfo, ModelInfoView,
};
use crate::text::concat;
use vstd::prelude::*;

verus! {

/// Whether models of an engine can translate into English.
pub open spec fn spec_translates(e: EngineType) -> bool {
    e == EngineType::Whisper || e == EngineType::Canary || e == EngineType::Cohere
}

/// Whether models of the engine can translate into English (Whisper, Canary and Cohere).
pub fn translates(e: EngineType) -> (r: bool)
    ensures
        r == spec_translates(e),
{
    match e {
        EngineType::Whisper | EngineType::Canary | EngineType::Cohere => true,
        _ => false,
    }
}

/// The texts `items` joined with `sep` between two neighbours.
pub open spec fn joined_with(items: Seq<Seq<char>>, sep: Seq<char>) -> Seq<char>
    decreases items.len(),
{
    if items.len() == 0 {
        Seq::empty()
    } else if items.len() == 1 {
        items[0]
    } else {
        joined_with(items.drop_last(), sep) + sep + items.last()
    }
}

/// The languages line of a model: the codes when there are at most ten, their number
/// otherwise, nothing when there are none.
pub open spec fn languages_lines(langs: Seq<Seq<char>>) -> Seq<Seq<char>> {
    if langs.len() == 0 {
        Seq::empty()
    } else if langs.len() <= 10 {
        seq!["    Languages: "@ + joined_with(langs, ", "@)]
    } else {
        seq!["    Languages: "@ + decimal(langs.len()) + " languages"@]
    }
}

/// The lines that describe one model, ending with an empty line.
pub open spec fn model_lines(m: ModelInfoView, downloaded: bool) -> Seq<Seq<char>> {
    seq![
        "  "@ + m.name + (if m.is_recommended {
            " ★"@
        } else {
            ""@
        }) + (if downloaded {
            "[downloaded]"@
        } else {
            ""@
        }),
        "    ID: "@ + m.id,
        "    Size: "@ + decimal(m.size_mb as nat) + " MB"@,
        "    Accuracy: "@ + decimal(m.accuracy_score as nat) + "%"@,
        "    Speed: "@ + decimal(m.speed_score as nat) + "%"@,
    ] + languages_lines(m.supported_languages) + (if spec_translates(m.engine_type) {
        seq!["    + Translation to English"@]
    } else {
        Seq::empty()
    }) + seq!["    "@ + m.description, Seq::empty()]
}

/// The heading of an engine's group.
pub open spec fn heading(e: EngineType) -> Seq<char> {
    "--- "@ + spec_engine_label(e) + " ---"@
}

/// The lines shown before the model at `k`: its engine's heading when it starts a group, after
/// an empty line unless it is the first model.
pub open spec fn group_lines(models: Seq<ModelInfoView>, k: int) -> Seq<Seq<char>> {
    if k == 0 {
        seq![heading(models[0].engine_type)]
    } else if spec_engine_label(models[k].engine_type) != spec_engine_label(
        models[k - 1].engine_type,
    ) {
        seq![Seq::empty(), heading(models[k].engine_type)]
    } else {
        Seq::empty()
    }
}

/// The lines of the models, each with the heading of a new group before it.
pub open spec fn models_lines(models: Seq<ModelInfoView>, downloaded: Seq<bool>) -> Seq<Seq<char>>
    decreases models.len(),
{
    if models.len() == 0 {
        Seq::empty()
    } else {
        let k = models.len() - 1;
        models_lines(models.drop_last(), downloaded) + group_lines(models, k) + model_lines(
            models[k],
            downloaded[k],
        )
    }
}

/// How many of the flags are set.
pub open spec fn count_set(flags: Seq<bool>) -> nat
    decreases flags.len(),
{
    if flags.len() == 0 {
        0
    } else {
        count_set(flags.drop_last()) + if flags.last() {
            1nat
        } else {
            0nat
        }
    }
}

/// The whole listing: a title and an empty line, the models by engine group, and how many of
/// them are downloaded.
pub open spec fn listing(models: Seq<ModelInfoView>, downloaded: Seq<bool>) -> Seq<Seq<char>> {
    seq!["=== Available Models ==="@, Seq::empty()] + models_lines(models, downloaded) + seq![
        "("@ + decimal(count_set(downloaded)) + " of "@ + decimal(models.len()) + " models downloaded)"@,
    ]
}

/// The codes joined with ", ".
fn join_codes(items: &Vec<String>) -> (r: String)
    ensures
        r@ == joined_with(texts_view(items@), ", "@),
{
    let mut out = String::new();
    let mut i: usize = 0;
    while i < items.len()
        invariant
            i <= items@.len(),
            out@ == joined_with(texts_view(items@.take(i as int)), ", "@),
        decreases items@.len() - i,
    {
        let ghost before = items@.take(i as int);
        assert(items@.take(i + 1).drop_last() =~= before);
        assert(texts_view(items@.take(i + 1)).drop_last() =~= texts_view(before));
        if i == 0 {
            out = String::from_str(items[i].as_str());
            assert(texts_view(items@.take(1)) =~= seq![items@[0]@]);
        } else {
            let with_sep = concat(out.as_str(), ", ");
            out = concat(with_sep.as_str(), items[i].as_str());
        }
        i = i + 1;
    }
    assert(items@.take(items@.len() as int) =~= items@);
    out
}

/// The lines that describe one model.
pub fn model_block(m: &ModelInfo, downloaded: bool) -> (r: Vec<String>)
    ensures
        texts_view(r@) == model_lines(m@, downloaded),
{
    let mut out: Vec<String> = Vec::new();
    let first = concat("  ", m.name.as_str());
    let first = concat(first.as_str(), if m.is_recommended { " ★" } else { "" });
    let first = concat(first.as_str(), if downloaded { "[downloaded]" } else { "" });
    out.push(first);
    out.push(concat("    ID: ", m.id.as_str()));
    let size = concat("    Size: ", decimal_text(m.size_mb).as_str());
    out.push(concat(size.as_str(), " MB"));
    let acc = concat("    Accuracy: ", decimal_text(m.accuracy_score as u64).as_str());
    out.push(concat(acc.as_str(), "%"));
    let speed = concat("    Speed: ", decimal_text(m.speed_score as u64).as_str());
    out.push(concat(speed.as_str(), "%"));
    let ghost head = texts_view(out@);
    let n = m.supported_languages.len();
    if n > 0 {
        if n <= 10 {
            let codes = join_codes(&m.supported_languages);
            out.push(concat("    Languages: ", codes.as_str()));
        } else {
            let count = concat("    Languages: ", decimal_text(n as u64).as_str());
            out.push(concat(count.as_str(), " languages"));
        }
    }
    let ghost with_langs = texts_view(out@);
    assert(with_langs =~= head + languages_lines(m@.supported_languages));
    if translates(m.engine_type) {
        out.push(String::from_str("    + Translation to English"));
    }
    let ghost with_translation = texts_view(out@);
    assert(with_translation =~= with_langs + (if spec_translates(m.engine_type) {
        seq!["    + Translation to English"@]
    } else {
        Seq::empty()
    }));
    out.push(concat("    ", m.description.as_str()));
    out.push(String::new());
    assert(texts_view(out@) =~= model_lines(m@, downloaded));
    out
}

/// Appends `more` to `lines`.
fn append_lines(lines: &mut Vec<String>, more: Vec<String>)
    ensures
        texts_view(final(lines)@) == texts_view(old(lines)@) + texts_view(more@),
{
    let ghost start = texts_view(lines@);
    let mut more = more;
    let ghost all = more@;
    let mut i: usize = 0;
    let n = more.len();
    let mut rest: Vec<String> = Vec::new();
    while i < n
        invariant
            n == all.len(),
            i <= n,
            texts_view(lines@) == start + texts_view(all.take(i as int)),
            more@ == all.skip(i as int),
        decreases n - i,
    {
        let ghost prev = texts_view(lines@);
        let s = more.remove(0);
        assert(s == all[i as int]);
        lines.push(s);
        assert(all.take(i + 1) =~= all.take(i as int).push(all[i as int]));
        assert(texts_view(all.take(i + 1)) =~= texts_view(all.take(i as int)).push(all[i as int]@));
        assert(texts_view(lines@) =~= prev.push(s@));
        assert(more@ =~= all.skip(i + 1));
        i = i + 1;
    }
    assert(all.take(n as int) =~= all);
}

/// The listing of `models`, given for each whether it is downloaded: a title, the models in
/// groups under their engine's heading, and the count of downloaded models.
pub fn listing_lines(models: &Vec<ModelInfo>, downloaded: &Vec<bool>) -> (r: Vec<String>)
    requires
        models@.len() == downloaded@.len(),
    ensures
        texts_view(r@) == listing(models_view(models@), downloaded@),
{
    let mut out: Vec<String> = Vec::new();
    out.push(String::from_str("=== Available Models ==="));
    out.push(String::new());
    let ghost mv = models_view(models@);
    let mut count: usize = 0;
    let mut k: usize = 0;
    while k < models.len()
        invariant
            k <= models@.len(),
            models@.len() == downloaded@.len(),
            mv == models_view(models@),
            count == count_set(downloaded@.take(k as int)),
            count <= k,
            texts_view(out@) == seq!["=== Available Models ==="@, Seq::empty()] + models_lines(
                mv.take(k as int),
                downloaded@,
            ),
        decreases models@.len() - k,
    {
        let ghost prev = texts_view(out@);
        let m = &models[k];
        assert(mv[k as int] == m@);
        let ghost taken = mv.take(k + 1);
        assert(taken.drop_last() =~= mv.take(k as int));
        assert(taken[k as int] == m@);
        if k == 0 {
            out.push(concat(concat("--- ", m.engine_type.label()).as_str(), " ---"));
        } else {
            assert(taken[k - 1] == models@[k - 1]@);
            if !same_label(m.engine_type, models[k - 1].engine_type) {
                out.push(String::new());
                out.push(concat(concat("--- ", m.engine_type.label()).as_str(), " ---"));
            }
        }
        assert(texts_view(out@) =~= prev + group_lines(taken, k as int));
        let block = model_block(m, downloaded[k]);
        append_lines(&mut out, block);
        assert(texts_view(out@) =~= seq!["=== Available Models ==="@, Seq::empty()] + models_lines(
            taken,
            downloaded@,
        ));
        assert(downloaded@.take(k + 1).drop_last() =~= downloaded@.take(k as int));
        if downloaded[k] {
            count = count + 1;
        }
        k = k + 1;
    }
    assert(mv.take(k as int) =~= mv);
    assert(downloaded@.take(k as int) =~= downloaded@);
    let tail = concat("(", decimal_text(count as u64).as_str());
    let tail = concat(tail.as_str(), " of ");
    let tail = concat(tail.as_str(), decimal_text(models.len() as u64).as_str());
    out.push(concat(tail.as_str(), " models downloaded)"));
    assert(texts_view(out@) =~= listing(mv, downloaded@));
    out
}

/// Whether two engines share a display name.
fn same_label(a: EngineType, b: EngineType) -> (r: bool)
    ensures
        r == (spec_engine_label(a) == spec_engine_label(b)),
{
    proof {
        reveal_strlit("Whisper");
        reveal_strlit("SenseVoice");
        reveal_strlit("Parakeet");
        reveal_strlit("Moonshine");
        reveal_strlit("GigaAM");
        reveal_strlit("Canary");
        reveal_strlit("Cohere");
    }
    let r = a == b;
    assert(r == (spec_engine_label(a) == spec_engine_label(b))) by {
        if a != b {
            assert(spec_engine_label(a) != spec_engine_label(b)) by {
                let la = spec_engine_label(a);
                let lb = spec_engine_label(b);
                if la.len() == lb.len() {
                    assert(la[0] != lb[0] || la[1] != lb[1]);
                }
            }
        }
    }
    r
}

/// The names of the entries that are directories, in order.
pub open spec fn directory_names(entries: Seq<(Seq<char>, bool)>) -> Seq<Seq<char>>
    decreases entries.len(),
{
    if entries.len() == 0 {
        Seq::empty()
    } else if entries.last().1 {
        directory_names(entries.drop_last()).push(entries.last().0)
    } else {
        directory_names(entries.drop_last())
    }
}

/// The names listed are exactly those of the entries that are directories, in order,
/// whatever the names are.
pub proof fn law_directory_names_are_the_directories(entries: Seq<(Seq<char>, bool)>)
    ensures
        directory_names(entries) == entries.filter(|e: (Seq<char>, bool)| e.1).map_values(
            |e: (Seq<char>, bool)| e.0,
        ),
    decreases entries.len(),
{
    reveal_with_fuel(Seq::filter, 1);
    if entries.len() > 0 {
        let front = entries.drop_last();
        law_directory_names_are_the_directories(front);
        let f = front.filter(|e: (Seq<char>, bool)| e.1);
        if entries.last().1 {
            assert(f.push(entries.last()).map_values(|e: (Seq<char>, bool)| e.0) =~= f.map_values(
                |e: (Seq<char>, bool)| e.0,
            ).push(entries.last().0));
        }
    } else {
        assert(entries.filter(|e: (Seq<char>, bool)| e.1).map_values(|e: (Seq<char>, bool)| e.0)
            =~= Seq::<Seq<char>>::empty());
    }
}

/// The view of directory entries: each name with whether it is a directory.
pub open spec fn entries_view(entries: Seq<(String, bool)>) -> Seq<(Seq<char>, bool)> {
    entries.map_values(|e: (String, bool)| (e.0@, e.1))
}

/// The downloaded models among the entries of the model directory: the names of those that
/// are directories, in the order given.
pub fn downloaded_names(entries: &Vec<(String, bool)>) -> (r: Vec<String>)
    ensures
        texts_view(r@) == directory_names(entries_view(entries@)),
{
    let ghost ev = entries_view(entries@);
    let mut out: Vec<String> = Vec::new();
    let mut i: usize = 0;
    while i < entries.len()
        invariant
            i <= entries@.len(),
            ev == entries_view(entries@),
            texts_view(out@) == directory_names(ev.take(i as int)),
        decreases entries@.len() - i,
    {
        let ghost prev = texts_view(out@);
        assert(ev.take(i + 1).drop_last() =~= ev.take(i as int));
        assert(ev.take(i + 1).last() == (entries@[i as int].0@, entries@[i as int].1));
        if entries[i].1 {
            let s = String::from_str(entries[i].0.as_str());
            out.push(s);
            assert(texts_view(out@) =~= prev.push(s@));
        } else {
            assert(texts_view(out@) =~= prev);
        }
        i = i + 1;
    }
    assert(ev.take(i as int) =~= ev);
    out
}

} // verus!

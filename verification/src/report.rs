use vstd::prelude::*;

use crate::diff_header::header_capture;
use crate::diff_header::parse_diff_header;
use crate::records::FileChangeRecord;
use crate::records::append_record;
use crate::records::distinct_keys;
use crate::records::lemma_record_append_distinct;
use crate::records::lemma_record_set_distinct;
use crate::records::record_append;
use crate::records::record_set;
use crate::records::recs_view;
use crate::records::set_record;
use crate::status::StatusEntry;
use crate::status::StatusKind;
use crate::status::classify_status;
use crate::status::spec_status_kind;
use crate::strutil::push_char;
use vstd::string::StrSliceExecFns;
use vstd::string::StringExecFns;

verus! {

/// One line of the textual index-to-workdir patch: its origin character
/// (context, addition, deletion or a header marker) and its raw content.
pub struct DiffLine {
    pub origin: char,
    pub content: String,
}

/// The label that opens the one-line description of a status entry.
pub open spec fn kind_label(k: StatusKind) -> Seq<char> {
    match k {
        StatusKind::Added => ("Add ")@,
        StatusKind::Modified => ("Modify ")@,
        StatusKind::Deleted => ("Delete ")@,
        StatusKind::Unknown => Seq::empty(),
    }
}

/// The one-line description that a status entry seeds its record with.
pub open spec fn spec_status_line(k: StatusKind, path: Seq<char>) -> Seq<char> {
    kind_label(k) + path + seq!['\n']
}

/// The text that one diff line contributes to its file's record:
/// the origin character, a space, and the raw line content.
pub open spec fn diff_line_text(origin: char, content: Seq<char>) -> Seq<char> {
    seq![origin, ' '] + content
}

/// A hunk-marker line: one that opens with `@@`.
pub open spec fn hunk_marker(content: Seq<char>) -> bool {
    content.len() >= 2 && content[0] == '@' && content[1] == '@'
}

/// The effect of one status entry on the records: an entry with a worktree
/// flag seeds (or overwrites) its path's record with its one-line
/// description; an entry with none of the three flags changes nothing.
pub open spec fn apply_status_entry(
    m: Seq<(Seq<char>, Seq<char>)>,
    e: StatusEntry,
) -> Seq<(Seq<char>, Seq<char>)> {
    let k = spec_status_kind(e.wt_new, e.wt_modified, e.wt_deleted);
    if k is Unknown {
        m
    } else {
        record_set(m, e.path@, spec_status_line(k, e.path@))
    }
}

/// The records after all status entries have been applied in order.
pub open spec fn status_fold(
    m: Seq<(Seq<char>, Seq<char>)>,
    entries: Seq<StatusEntry>,
) -> Seq<(Seq<char>, Seq<char>)>
    decreases entries.len(),
{
    if entries.len() == 0 {
        m
    } else {
        status_fold(apply_status_entry(m, entries[0]), entries.drop_first())
    }
}

/// The state of the diff scan: the records built so far, the most recently
/// seen file-header path, and whether a hunk marker has been seen since.
pub struct DiffScan {
    pub records: Seq<(Seq<char>, Seq<char>)>,
    pub current: Option<Seq<char>>,
    pub in_hunk: bool,
}

/// The transition of the diff scan on one patch line. A file-header line
/// moves the cursor to its first captured path and leaves the hunk. Any
/// other line is ignored while no file is current; otherwise a `@@` marker
/// enters the hunk, and every line seen inside the hunk (the marker
/// included) is appended to the current file's record.
pub open spec fn diff_step(st: DiffScan, origin: char, content: Seq<char>) -> DiffScan {
    match header_capture(content) {
        Some(path) => DiffScan { records: st.records, current: Some(path), in_hunk: false },
        None => match st.current {
            Some(f) => {
                let ih = st.in_hunk || hunk_marker(content);
                if ih {
                    DiffScan {
                        records: record_append(st.records, f, diff_line_text(origin, content)),
                        current: Some(f),
                        in_hunk: ih,
                    }
                } else {
                    st
                }
            },
            None => st,
        },
    }
}

/// The scan state after all patch lines have been consumed in order.
pub open spec fn diff_fold(st: DiffScan, lines: Seq<DiffLine>) -> DiffScan
    decreases lines.len(),
{
    if lines.len() == 0 {
        st
    } else {
        diff_fold(diff_step(st, lines[0].origin, lines[0].content@), lines.drop_first())
    }
}

/// The record texts joined in record order, one blank-line separator
/// (each record text ends in its own newline) between neighbours.
pub open spec fn join_texts(m: Seq<(Seq<char>, Seq<char>)>) -> Seq<char>
    decreases m.len(),
{
    if m.len() == 0 {
        Seq::empty()
    } else if m.len() == 1 {
        m[0].1
    } else {
        join_texts(m.drop_last()) + seq!['\n'] + m.last().1
    }
}

/// The records of the whole build: the status scan seeds them, the diff
/// scan appends to them.
pub open spec fn report_records(
    entries: Seq<StatusEntry>,
    lines: Seq<DiffLine>,
) -> Seq<(Seq<char>, Seq<char>)> {
    diff_fold(
        DiffScan {
            records: status_fold(Seq::empty(), entries),
            current: None,
            in_hunk: false,
        },
        lines,
    ).records
}

/// The complete change report for the given status entries and patch lines.
pub open spec fn spec_change_report(entries: Seq<StatusEntry>, lines: Seq<DiffLine>) -> Seq<
    char,
> {
    join_texts(report_records(entries, lines))
}

/// The view of the current-file cursor.
pub open spec fn opt_str_view(o: Option<String>) -> Option<Seq<char>> {
    match o {
        Some(s) => Some(s@),
        None => None,
    }
}

/// The one-line description of a classified status entry.
pub fn status_line_string(k: StatusKind, path: &String) -> (r: String)
    ensures
        r@ == spec_status_line(k, path@),
{
    let mut r = match k {
        StatusKind::Added => "Add ".to_owned(),
        StatusKind::Modified => "Modify ".to_owned(),
        StatusKind::Deleted => "Delete ".to_owned(),
        StatusKind::Unknown => String::new(),
    };
    r.append(path.as_str());
    push_char(&mut r, '\n');
    proof {
        assert(r@ =~= kind_label(k) + path@ + seq!['\n']);
    }
    r
}

/// The text a diff line contributes to its file's record.
pub fn diff_line_text_string(origin: char, content: &String) -> (r: String)
    ensures
        r@ == diff_line_text(origin, content@),
{
    let mut r = String::new();
    push_char(&mut r, origin);
    push_char(&mut r, ' ');
    r.append(content.as_str());
    proof {
        assert(r@ =~= seq![origin, ' '] + content@);
    }
    r
}

/// Whether a patch line opens with the `@@` hunk marker.
fn is_hunk_marker(s: &str) -> (r: bool)
    ensures
        r == hunk_marker(s@),
{
    let n = s.unicode_len();
    if n < 2 {
        return false;
    }
    s.get_char(0) == '@' && s.get_char(1) == '@'
}

/// Build the change report from the status entries and the patch lines:
/// each flagged status entry seeds one record for its path, every patch
/// line inside a hunk is appended to the record of the most recently seen
/// header path, and the records are joined in insertion order.
pub fn build_change_report(entries: &Vec<StatusEntry>, lines: &Vec<DiffLine>) -> (r: String)
    ensures
        r@ == spec_change_report(entries@, lines@),
{
    let ghost target0 = status_fold(Seq::empty(), entries@);
    let mut recs: Vec<FileChangeRecord> = Vec::new();
    proof {
        assert(recs_view(recs@) =~= Seq::<(Seq<char>, Seq<char>)>::empty());
        assert(entries@.skip(0) =~= entries@);
    }
    let mut i: usize = 0;
    while i < entries.len()
        invariant
            0 <= i <= entries@.len(),
            status_fold(recs_view(recs@), entries@.skip(i as int)) == target0,
        decreases entries@.len() - i,
    {
        let ghost m_before = recs_view(recs@);
        let e = &entries[i];
        let k = classify_status(e);
        if !matches!(k, StatusKind::Unknown) {
            let line = status_line_string(k, &e.path);
            set_record(&mut recs, &e.path, line);
        }
        proof {
            assert(entries@.skip(i as int)[0] == entries@[i as int]);
            assert(entries@.skip(i as int).drop_first() =~= entries@.skip(i as int + 1));
            assert(recs_view(recs@) == apply_status_entry(m_before, entries@[i as int]));
        }
        i = i + 1;
    }
    proof {
        assert(entries@.skip(entries@.len() as int) =~= Seq::<StatusEntry>::empty());
        assert(recs_view(recs@) == target0);
    }
    let ghost st0 = DiffScan { records: target0, current: None, in_hunk: false };
    let ghost target1 = diff_fold(st0, lines@);
    let mut cur: Option<String> = None;
    let mut in_hunk: bool = false;
    proof {
        assert(lines@.skip(0) =~= lines@);
    }
    let mut j: usize = 0;
    while j < lines.len()
        invariant
            0 <= j <= lines@.len(),
            diff_fold(
                DiffScan { records: recs_view(recs@), current: opt_str_view(cur), in_hunk },
                lines@.skip(j as int),
            ) == target1,
        decreases lines@.len() - j,
    {
        let ghost st_before = DiffScan {
            records: recs_view(recs@),
            current: opt_str_view(cur),
            in_hunk,
        };
        let l = &lines[j];
        let header = parse_diff_header(l.content.as_str());
        match header {
            Some(path) => {
                cur = Some(path);
                in_hunk = false;
            },
            None => {
                match &cur {
                    Some(f) => {
                        if is_hunk_marker(l.content.as_str()) {
                            in_hunk = true;
                        }
                        if in_hunk {
                            let txt = diff_line_text_string(l.origin, &l.content);
                            append_record(&mut recs, f, txt);
                        }
                    },
                    None => {},
                }
            },
        }
        proof {
            assert(lines@.skip(j as int)[0] == lines@[j as int]);
            assert(lines@.skip(j as int).drop_first() =~= lines@.skip(j as int + 1));
            assert(DiffScan { records: recs_view(recs@), current: opt_str_view(cur), in_hunk }
                == diff_step(st_before, lines@[j as int].origin, lines@[j as int].content@));
        }
        j = j + 1;
    }
    proof {
        assert(lines@.skip(lines@.len() as int) =~= Seq::<DiffLine>::empty());
        assert(recs_view(recs@) == target1.records);
        assert(recs_view(recs@) == report_records(entries@, lines@));
    }
    let ghost mfin = recs_view(recs@);
    let mut out = String::new();
    proof {
        assert(mfin.take(0) =~= Seq::<(Seq<char>, Seq<char>)>::empty());
    }
    let mut t: usize = 0;
    while t < recs.len()
        invariant
            0 <= t <= recs@.len(),
            mfin == recs_view(recs@),
            out@ == join_texts(mfin.take(t as int)),
        decreases recs@.len() - t,
    {
        let ghost out_before = out@;
        if t > 0 {
            push_char(&mut out, '\n');
        }
        out.append(recs[t].text.as_str());
        proof {
            assert(mfin.len() == recs@.len());
            assert(mfin[t as int] == (recs@[t as int].path@, recs@[t as int].text@));
            assert(mfin.take(t as int + 1).drop_last() =~= mfin.take(t as int));
            assert(mfin.take(t as int + 1).last() == mfin[t as int]);
            if t == 0 {
                assert(out@ =~= mfin.take(1)[0].1);
            } else {
                assert(out@ =~= join_texts(mfin.take(t as int)) + seq!['\n'] + mfin[t as int].1);
            }
        }
        t = t + 1;
    }
    proof {
        assert(mfin.take(mfin.len() as int) =~= mfin);
    }
    out
}

/// Running the build twice over the same status entries and patch lines
/// yields byte-identical reports: the build is a function of its inputs.
pub proof fn lemma_report_deterministic(
    entries1: Seq<StatusEntry>,
    lines1: Seq<DiffLine>,
    entries2: Seq<StatusEntry>,
    lines2: Seq<DiffLine>,
)
    requires
        entries1 == entries2,
        lines1 == lines2,
    ensures
        spec_change_report(entries1, lines1) == spec_change_report(entries2, lines2),
{
}

/// A status entry that carries none of the three worktree flags leaves the
/// records untouched: it is excluded from the report rather than failing.
pub proof fn lemma_unknown_status_excluded(m: Seq<(Seq<char>, Seq<char>)>, e: StatusEntry)
    requires
        spec_status_kind(e.wt_new, e.wt_modified, e.wt_deleted) is Unknown,
    ensures
        apply_status_entry(m, e) == m,
{
}

proof fn lemma_status_fold_distinct(m: Seq<(Seq<char>, Seq<char>)>, entries: Seq<StatusEntry>)
    requires
        distinct_keys(m),
    ensures
        distinct_keys(status_fold(m, entries)),
    decreases entries.len(),
{
    if entries.len() == 0 {
    } else {
        let e = entries[0];
        let k = spec_status_kind(e.wt_new, e.wt_modified, e.wt_deleted);
        if !(k is Unknown) {
            lemma_record_set_distinct(m, e.path@, spec_status_line(k, e.path@));
        }
        lemma_status_fold_distinct(apply_status_entry(m, e), entries.drop_first());
    }
}

proof fn lemma_diff_step_distinct(st: DiffScan, origin: char, content: Seq<char>)
    requires
        distinct_keys(st.records),
    ensures
        distinct_keys(diff_step(st, origin, content).records),
{
    match header_capture(content) {
        Some(_) => {},
        None => match st.current {
            Some(f) => {
                if st.in_hunk || hunk_marker(content) {
                    lemma_record_append_distinct(st.records, f, diff_line_text(origin, content));
                }
            },
            None => {},
        },
    }
}

proof fn lemma_diff_fold_distinct(st: DiffScan, lines: Seq<DiffLine>)
    requires
        distinct_keys(st.records),
    ensures
        distinct_keys(diff_fold(st, lines).records),
    decreases lines.len(),
{
    if lines.len() == 0 {
    } else {
        lemma_diff_step_distinct(st, lines[0].origin, lines[0].content@);
        lemma_diff_fold_distinct(
            diff_step(st, lines[0].origin, lines[0].content@),
            lines.drop_first(),
        );
    }
}

/// Every path appears at most once as a record key of the built report,
/// however many status entries name it or however many diff hunks touch it.
pub proof fn lemma_report_keys_distinct(entries: Seq<StatusEntry>, lines: Seq<DiffLine>)
    ensures
        distinct_keys(report_records(entries, lines)),
{
    lemma_status_fold_distinct(Seq::empty(), entries);
    lemma_diff_fold_distinct(
        DiffScan {
            records: status_fold(Seq::empty(), entries),
            current: None,
            in_hunk: false,
        },
        lines,
    );
}

} // verus!

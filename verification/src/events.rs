use vstd::prelude::*;

verus! {

/// The executable path named by one line of build-event output: the value of
/// the record's string `executable` field when the line is a well-formed
/// record carrying one, and nothing otherwise.
pub uninterp spec fn event_executable(line: Seq<u8>) -> Option<Seq<char>>;

/// The byte sequences of a sequence of byte vectors.
pub open spec fn views_of(lines: Seq<Vec<u8>>) -> Seq<Seq<u8>> {
    lines.map_values(|l: Vec<u8>| l@)
}

/// Relies on serde_json::from_str, Value::get and Value::as_str: whether a
/// line parses as a record with a string `executable` field, and that field's
/// text, are a function of the line's bytes alone. A line that is not valid
/// UTF-8, not well-formed, or carries no string `executable` field yields
/// nothing.
#[verifier::external_body]
fn parse_event_executable(line: &Vec<u8>) -> (r: Option<String>)
    ensures
        r is Some <==> event_executable(line@) is Some,
        r matches Some(s) ==> event_executable(line@) == Some(s@),
{
    let text = match core::str::from_utf8(line) {
        Ok(t) => t,
        Err(_) => return None,
    };
    let value: serde_json::Value = match serde_json::from_str::<serde_json::Value>(text) {
        Ok(v) => v,
        Err(_) => return None,
    };
    match value.get("executable") {
        Some(field) => field.as_str().map(|s| s.to_string()),
        None => None,
    }
}

/// A line with its terminator removed: splitting already consumed the `\n`,
/// and a trailing `\r` belongs to the terminator too.
pub open spec fn strip_cr(line: Seq<u8>) -> Seq<u8> {
    if line.len() > 0 && line.last() == 13u8 {
        line.drop_last()
    } else {
        line
    }
}

/// The lines of `b` still to be cut, with `cur` the part of the current line
/// already consumed.
pub open spec fn lines_of_rest(b: Seq<u8>, cur: Seq<u8>) -> Seq<Seq<u8>>
    decreases b.len(),
{
    if b.len() == 0 {
        if cur.len() == 0 {
            Seq::empty()
        } else {
            seq![strip_cr(cur)]
        }
    } else if b[0] == 10u8 {
        seq![strip_cr(cur)] + lines_of_rest(b.drop_first(), Seq::empty())
    } else {
        lines_of_rest(b.drop_first(), cur.push(b[0]))
    }
}

/// The lines of a byte stream, cut at each `\n`, each line's terminator
/// (`\n` or `\r\n`) removed; a final unterminated line counts too.
pub open spec fn lines_of(b: Seq<u8>) -> Seq<Seq<u8>> {
    lines_of_rest(b, Seq::empty())
}

fn strip_cr_exec(line: Vec<u8>) -> (r: Vec<u8>)
    ensures
        r@ == strip_cr(line@),
{
    let mut line = line;
    if line.len() > 0 && line[line.len() - 1] == 13u8 {
        line.pop();
    }
    line
}

/// Cuts a byte stream into its lines.
pub fn split_lines(bytes: &Vec<u8>) -> (r: Vec<Vec<u8>>)
    ensures
        views_of(r@) == lines_of(bytes@),
{
    let mut r: Vec<Vec<u8>> = Vec::new();
    let mut cur: Vec<u8> = Vec::new();
    let mut i: usize = 0;
    proof {
        assert(bytes@.skip(0) =~= bytes@);
        assert(views_of(r@) =~= Seq::<Seq<u8>>::empty());
        assert(views_of(r@) + lines_of_rest(bytes@.skip(0), cur@) =~= lines_of(bytes@));
    }
    while i < bytes.len()
        invariant
            i <= bytes@.len(),
            lines_of(bytes@) == views_of(r@) + lines_of_rest(bytes@.skip(i as int), cur@),
        decreases bytes@.len() - i,
    {
        let b = bytes[i];
        proof {
            assert(bytes@.skip(i as int)[0] == b);
            assert(bytes@.skip(i as int).drop_first() =~= bytes@.skip(i + 1));
        }
        if b == 10u8 {
            let line = strip_cr_exec(cur);
            cur = Vec::new();
            let ghost old_views = views_of(r@);
            let ghost rest = lines_of_rest(bytes@.skip(i + 1), cur@);
            r.push(line);
            proof {
                assert(views_of(r@) =~= old_views + seq![line@]);
                assert((old_views + seq![line@]) + rest =~= old_views + (seq![line@] + rest));
            }
        } else {
            cur.push(b);
        }
        i = i + 1;
    }
    proof {
        assert(bytes@.skip(bytes@.len() as int) =~= Seq::<u8>::empty());
    }
    if cur.len() > 0 {
        let line = strip_cr_exec(cur);
        let ghost old_views = views_of(r@);
        r.push(line);
        proof {
            assert(views_of(r@) =~= old_views + seq![line@]);
        }
    } else {
        proof {
            assert(views_of(r@) + Seq::<Seq<u8>>::empty() =~= views_of(r@));
        }
    }
    r
}

/// The executable named by the last line that names one, searching the whole
/// sequence; nothing when no line names one.
pub open spec fn last_exec(lines: Seq<Seq<u8>>) -> Option<Seq<char>>
    decreases lines.len(),
{
    if lines.len() == 0 {
        None
    } else if event_executable(lines.last()) is Some {
        event_executable(lines.last())
    } else {
        last_exec(lines.drop_last())
    }
}

/// Scans the build-event lines and returns the executable named by the last
/// line carrying one; ill-formed lines in between are skipped. `None` exactly
/// when no line names an executable.
pub fn last_executable(lines: &Vec<Vec<u8>>) -> (r: Option<String>)
    ensures
        r is Some <==> last_exec(views_of(lines@)) is Some,
        r matches Some(s) ==> last_exec(views_of(lines@)) == Some(s@),
{
    let ghost all = views_of(lines@);
    let mut found: Option<String> = None;
    let mut i: usize = 0;
    while i < lines.len()
        invariant
            i <= all.len(),
            all == views_of(lines@),
            all.len() == lines@.len(),
            found is Some <==> last_exec(all.take(i as int)) is Some,
            found matches Some(s) ==> last_exec(all.take(i as int)) == Some(s@),
        decreases all.len() - i,
    {
        proof {
            assert(all.take(i + 1).last() == all[i as int]);
            assert(all.take(i + 1).drop_last() =~= all.take(i as int));
        }
        match parse_event_executable(&lines[i]) {
            Some(s) => {
                found = Some(s);
            },
            None => {},
        }
        i = i + 1;
    }
    proof {
        assert(all.take(all.len() as int) =~= all);
    }
    found
}

/// Of all lines carrying an executable, the last one is authoritative: when
/// line `j` names one and no later line does, the parse result is exactly
/// line `j`'s executable, whatever stands before it.
pub proof fn lemma_last_present_is_authoritative(lines: Seq<Seq<u8>>, j: int)
    requires
        0 <= j < lines.len(),
        event_executable(lines[j]) is Some,
        forall|k: int| j < k < lines.len() ==> event_executable(#[trigger] lines[k]) is None,
    ensures
        last_exec(lines) == event_executable(lines[j]),
    decreases lines.len(),
{
    if j < lines.len() - 1 {
        assert(event_executable(lines.last()) is None);
        assert(lines.drop_last()[j] == lines[j]);
        assert(forall|k: int| j < k < lines.drop_last().len() ==> event_executable(
            #[trigger] lines.drop_last()[k],
        ) is None);
        lemma_last_present_is_authoritative(lines.drop_last(), j);
    }
}

/// When no line names an executable — the sequence may also be empty — the
/// parse finds none.
pub proof fn lemma_no_executable(lines: Seq<Seq<u8>>)
    requires
        forall|k: int| 0 <= k < lines.len() ==> event_executable(#[trigger] lines[k]) is None,
    ensures
        last_exec(lines) is None,
    decreases lines.len(),
{
    if lines.len() > 0 {
        assert(forall|k: int| 0 <= k < lines.drop_last().len() ==> event_executable(
            #[trigger] lines.drop_last()[k],
        ) is None);
        lemma_no_executable(lines.drop_last());
    }
}

} // verus!

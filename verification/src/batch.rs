use vstd::prelude::*;
use crate::decimal::parse_unsigned;
use crate::error::FgcError;
use crate::outside::{
    base64_encode, base64_standard, path_join, path_join_of, url_parse, url_parse_of,
    utf8_lossy, utf8_lossy_of,
};
use crate::progress::{count_from_text, count_value};
use crate::text::{
    after_first, after_first_char, bytes_of, concat2, concat3, has_char, has_prefix, owned,
    split_at_byte, starts_with, strip_prefix, trim_end_char, trim_end_matches_char,
    trim_end_matches_str, trim_end_str, trim_start_char, trim_start_matches_char,
    trim_start_matches_str, trim_start_str, utf8_text,
};
use crate::words::{lines, split_lines, split_whitespace, split_ws, trim, trim_ws};

verus! {

/// An LFS object that the working tree needs.
#[derive(Debug)]
pub struct LfsObject {
    pub oid: String,
    pub size: u64,
    pub path: String,
}

/// Where to download an LFS object from.
#[derive(Debug)]
pub struct DownloadAction {
    pub oid: String,
    pub url: String,
    pub headers: Vec<(String, String)>,
}

/// One object in the answer of the LFS batch API.
#[derive(Debug)]
pub struct BatchResponseObject {
    pub oid: String,
    pub actions: Option<BatchActions>,
    pub error: Option<BatchError>,
}

/// The actions the LFS batch API offers for an object.
#[derive(Debug)]
pub struct BatchActions {
    pub download: Option<BatchAction>,
}

/// A download offered by the LFS batch API.
#[derive(Debug)]
pub struct BatchAction {
    pub href: String,
    /// The answer's header map as name/value pairs; a map names each header once
    /// (see `law_download_headers_keep_distinct_keys`).
    pub header: Option<Vec<(String, String)>>,
}

/// An error the LFS batch API reports for an object.
#[derive(Debug)]
pub struct BatchError {
    pub message: String,
}

/// Header pairs as plain values.
pub open spec fn pairs_view(v: Seq<(String, String)>) -> Seq<(Seq<char>, Seq<char>)> {
    v.map_values(|p: (String, String)| (p.0@, p.1@))
}

/// A copy of a list of header pairs.
pub fn clone_pairs(v: &Vec<(String, String)>) -> (r: Vec<(String, String)>)
    ensures
        pairs_view(r@) == pairs_view(v@),
{
    let mut r: Vec<(String, String)> = Vec::new();
    let mut i: usize = 0;
    while i < v.len()
        invariant
            i <= v@.len(),
            pairs_view(r@) == pairs_view(v@.take(i as int)),
        decreases v@.len() - i,
    {
        let (a, b) = &v[i];
        r.push((a.clone(), b.clone()));
        assert(pairs_view(v@.take(i + 1)) =~= pairs_view(v@.take(i as int)).push((a@, b@)));
        assert(pairs_view(r@) =~= pairs_view(v@.take(i + 1)));
        i += 1;
    }
    assert(v@.take(v@.len() as int) =~= v@);
    r
}

// ---------------------------------------------------------------------------
// Which objects are needed (`git lfs ls-files -l`)
// ---------------------------------------------------------------------------

/// Words joined by single spaces (`[&str]::join(" ")`).
pub open spec fn join_spaced(ws: Seq<Seq<char>>) -> Seq<char>
    decreases ws.len(),
{
    if ws.len() == 0 {
        Seq::empty()
    } else if ws.len() == 1 {
        ws[0]
    } else {
        join_spaced(ws.drop_last()) + " "@ + ws.last()
    }
}

/// The object a line of `git lfs ls-files -l` names: its first word, its second
/// read as a size (0 when that is no number), and the words from the fourth on as
/// the path; lines of fewer than four words name none.
pub open spec fn ls_files_entry(line: Seq<char>) -> Option<(Seq<char>, u64, Seq<char>)> {
    let ws = split_ws(line);
    if ws.len() < 4 {
        None
    } else {
        Some((ws[0], count_value(ws[1]), join_spaced(ws.skip(3))))
    }
}

/// The objects named by lines of `git lfs ls-files -l`, in order.
pub open spec fn ls_files_entries(ls: Seq<Seq<char>>) -> Seq<(Seq<char>, u64, Seq<char>)>
    decreases ls.len(),
{
    if ls.len() == 0 {
        Seq::empty()
    } else {
        match ls_files_entry(ls.last()) {
            Some(e) => ls_files_entries(ls.drop_last()).push(e),
            None => ls_files_entries(ls.drop_last()),
        }
    }
}

/// The objects are those of the lines that name one, one per such line, in the
/// order of the lines.
pub proof fn law_one_object_per_listed_line(ls: Seq<Seq<char>>)
    ensures
        ls_files_entries(ls) == ls.filter_map(|l: Seq<char>| ls_files_entry(l)),
    decreases ls.len(),
{
    if ls.len() > 0 {
        law_one_object_per_listed_line(ls.drop_last());
        match ls_files_entry(ls.last()) {
            Some(e) => {
                assert(ls_files_entries(ls.drop_last()).push(e) =~= ls_files_entries(ls.drop_last())
                    + seq![e]);
            },
            None => {},
        }
    }
}

/// Objects as plain values.
pub open spec fn objects_view(v: Seq<LfsObject>) -> Seq<(Seq<char>, u64, Seq<char>)> {
    v.map_values(|o: LfsObject| (o.oid@, o.size, o.path@))
}

/// The words of `ws` from index `from` on, joined by single spaces.
fn join_words_from(ws: &Vec<String>, from: usize) -> (r: String)
    requires
        from < ws@.len(),
    ensures
        r@ == join_spaced(ws@.skip(from as int).map_values(|w: String| w@)),
{
    let ghost tail = ws@.skip(from as int).map_values(|w: String| w@);
    let n = ws.len();
    let mut r = ws[from].clone();
    let mut i = from + 1;
    assert(tail.take(1) =~= seq![ws@[from as int]@]);
    while i < ws.len()
        invariant
            from < i <= ws@.len(),
            tail == ws@.skip(from as int).map_values(|w: String| w@),
            r@ == join_spaced(tail.take(i - from)),
        decreases ws@.len() - i,
    {
        assert(tail.take(i + 1 - from).drop_last() =~= tail.take(i - from));
        r.append(" ");
        r.append(ws[i].as_str());
        i += 1;
    }
    assert(tail.take(ws@.len() - from) =~= tail);
    r
}

/// The objects that the output of `git lfs ls-files -l` names, in order.
pub fn parse_ls_files(stdout: &[u8]) -> (r: Vec<LfsObject>)
    ensures
        objects_view(r@) == ls_files_entries(split_lines(utf8_lossy_of(stdout@))),
        // one object per line of at least four words, in order
        objects_view(r@) == split_lines(utf8_lossy_of(stdout@)).filter_map(
            |l: Seq<char>| ls_files_entry(l),
        ),
{
    proof {
        law_one_object_per_listed_line(split_lines(utf8_lossy_of(stdout@)));
    }
    let text = utf8_lossy(stdout);
    let ls = lines(text.as_str());
    let ghost all = split_lines(text@);
    let mut out: Vec<LfsObject> = Vec::new();
    let mut i: usize = 0;
    while i < ls.len()
        invariant
            ls@.len() == all.len(),
            forall|k: int| 0 <= k < ls@.len() ==> #[trigger] ls@[k]@ == all[k],
            i <= ls@.len(),
            objects_view(out@) == ls_files_entries(all.take(i as int)),
        decreases ls@.len() - i,
    {
        assert(all.take(i + 1).drop_last() =~= all.take(i as int));
        let parts = split_whitespace(ls[i].as_str());
        let ghost ws = split_ws(all[i as int]);
        assert(parts@.map_values(|w: String| w@) =~= ws);
        if parts.len() >= 4 {
            let oid = parts[0].clone();
            let size = count_from_text(parts[1].as_str());
            let path = join_words_from(&parts, 3);
            assert(parts@.skip(3).map_values(|w: String| w@) =~= ws.skip(3));
            let ghost before = out@;
            out.push(LfsObject { oid, size, path });
            assert(objects_view(out@) =~= objects_view(before).push(
                ls_files_entry(all[i as int]).unwrap(),
            ));
        }
        i += 1;
    }
    assert(all.take(all.len() as int) =~= all);
    out
}

// ---------------------------------------------------------------------------
// Where objects are stored
// ---------------------------------------------------------------------------

/// The object id can be cut after its first and second byte pair, as
/// `&oid[0..2]` and `&oid[2..4]` do.
pub open spec fn oid_slices_ok(oid: Seq<char>) -> bool {
    let b = bytes_of(oid);
    &&& b.len() >= 4
    &&& vstd::utf8::is_char_boundary(b, 2)
    &&& vstd::utf8::is_char_boundary(b.subrange(2, b.len() as int), 2)
}

/// Where the object `oid` is stored in the repository at `dest`:
/// `.git/lfs/objects/<first byte pair>/<second byte pair>/<oid>`.
pub open spec fn object_path_of(dest: Seq<char>, oid: Seq<char>) -> Seq<char> {
    let b = bytes_of(oid);
    path_join_of(
        path_join_of(
            path_join_of(path_join_of(dest, ".git/lfs/objects"@), utf8_text(b.subrange(0, 2))),
            utf8_text(b.subrange(2, 4)),
        ),
        oid,
    )
}

/// Where the object `oid` is stored in the repository at `dest`.
pub fn lfs_object_path(dest: &str, oid: &str) -> (p: String)
    requires
        oid_slices_ok(oid@),
    ensures
        p@ == object_path_of(dest@, oid@),
{
    let (first, rest) = split_at_byte(oid, 2);
    let (second, _) = split_at_byte(rest.as_str(), 2);
    assert(bytes_of(oid@).subrange(2, bytes_of(oid@).len() as int).subrange(0, 2) =~= bytes_of(
        oid@,
    ).subrange(2, 4));
    let base = path_join(dest, ".git/lfs/objects");
    let a = path_join(base.as_str(), first.as_str());
    let b = path_join(a.as_str(), second.as_str());
    path_join(b.as_str(), oid)
}

/// Where to look for the object `oid` in the repository at `dest`; `None` for an
/// id of fewer than four bytes, which names no stored object.
pub fn object_path(dest: &str, oid: &str) -> (p: Option<String>)
    requires
        bytes_of(oid@).len() < 4 || oid_slices_ok(oid@),
        bytes_of(oid@).len() <= usize::MAX,
    ensures
        bytes_of(oid@).len() < 4 <==> p is None,
        p matches Some(x) ==> x@ == object_path_of(dest@, oid@),
{
    if oid.len() < 4 {
        None
    } else {
        Some(lfs_object_path(dest, oid))
    }
}

} // verus!

verus! {

// ---------------------------------------------------------------------------
// The answer of the LFS batch API
// ---------------------------------------------------------------------------

/// The download offered for an object, if any.
pub open spec fn download_of(o: BatchResponseObject) -> Option<BatchAction> {
    match o.actions {
        Some(a) => a.download,
        None => None,
    }
}

/// The headers of a download, none when it names none.
pub open spec fn headers_of(d: BatchAction) -> Seq<(Seq<char>, Seq<char>)> {
    match d.header {
        Some(h) => pairs_view(h@),
        None => Seq::empty(),
    }
}

/// The message for an object the batch API reports an error for.
pub open spec fn batch_error_message(o: BatchResponseObject) -> Seq<char> {
    "LFS batch error for "@ + o.oid@ + ": "@ + o.error.unwrap().message@
}

/// The downloads in a batch answer, in order, each as object id, URL and headers;
/// the first object with an error turns the whole answer into that error.
pub open spec fn batch_downloads(objs: Seq<BatchResponseObject>) -> Result<
    Seq<(Seq<char>, Seq<char>, Seq<(Seq<char>, Seq<char>)>)>,
    Seq<char>,
>
    decreases objs.len(),
{
    if objs.len() == 0 {
        Ok(Seq::empty())
    } else {
        let o = objs[0];
        if o.error is Some {
            Err(batch_error_message(o))
        } else {
            match batch_downloads(objs.drop_first()) {
                Err(m) => Err(m),
                Ok(rest) => match download_of(o) {
                    Some(d) => Ok(seq![(o.oid@, d.href@, headers_of(d))] + rest),
                    None => Ok(rest),
                },
            }
        }
    }
}

/// An answer without object errors gives downloads; an error on an object makes
/// the answer that error, named after the first such object; and every download
/// an object offers is among the downloads, with its object id and URL.
pub proof fn law_batch_answer(objs: Seq<BatchResponseObject>)
    ensures
        (forall|i: int| 0 <= i < objs.len() ==> (#[trigger] objs[i]).error is None) ==> batch_downloads(
            objs,
        ) is Ok,
        forall|i: int|
            0 <= i < objs.len() && (#[trigger] objs[i]).error is Some && (forall|j: int|
                0 <= j < i ==> objs[j].error is None) ==> batch_downloads(objs) == Err::<
                Seq<(Seq<char>, Seq<char>, Seq<(Seq<char>, Seq<char>)>)>,
                Seq<char>,
            >("LFS batch error for "@ + objs[i].oid@ + ": "@ + objs[i].error.unwrap().message@),
        batch_downloads(objs) matches Ok(v) ==> (forall|i: int|
            0 <= i < objs.len() && download_of(#[trigger] objs[i]) is Some ==> exists|k: int|
                0 <= k < v.len() && v[k].0 == objs[i].oid@ && v[k].1 == download_of(
                    objs[i],
                ).unwrap().href@),
    decreases objs.len(),
{
    if objs.len() > 0 {
        let rest = objs.drop_first();
        law_batch_answer(rest);
        assert forall|i: int| 0 <= i < rest.len() implies #[trigger] rest[i] == objs[i + 1] by {}
        let o = objs[0];
        // no errors at all
        if forall|i: int| 0 <= i < objs.len() ==> (#[trigger] objs[i]).error is None {
            assert forall|i: int| 0 <= i < rest.len() implies (#[trigger] rest[i]).error is None by {
                assert(objs[i + 1].error is None);
            }
        }
        // the first error
        assert forall|i: int|
            0 <= i < objs.len() && (#[trigger] objs[i]).error is Some && (forall|j: int|
                0 <= j < i ==> objs[j].error is None) implies batch_downloads(objs) == Err::<
            Seq<(Seq<char>, Seq<char>, Seq<(Seq<char>, Seq<char>)>)>,
            Seq<char>,
        >("LFS batch error for "@ + objs[i].oid@ + ": "@ + objs[i].error.unwrap().message@) by {
            if i > 0 {
                assert(objs[0].error is None);
                assert(rest[i - 1] == objs[i]);
                assert forall|j: int| 0 <= j < i - 1 implies rest[j].error is None by {
                    assert(objs[j + 1].error is None);
                }
            }
        }
        match batch_downloads(objs) {
            Ok(v) => {
                assert(o.error is None);
                let r = batch_downloads(rest)->Ok_0;
                assert forall|i: int|
                    0 <= i < objs.len() && download_of(#[trigger] objs[i]) is Some implies exists|k: int|
                        0 <= k < v.len() && v[k].0 == objs[i].oid@ && v[k].1 == download_of(
                            objs[i],
                        ).unwrap().href@ by {
                    if i == 0 {
                        assert(v[0].0 == objs[0].oid@);
                    } else {
                        assert(objs[i] == rest[i - 1]);
                        let k = choose|k: int|
                            0 <= k < r.len() && r[k].0 == rest[i - 1].oid@ && r[k].1 == download_of(
                                rest[i - 1],
                            ).unwrap().href@;
                        match download_of(o) {
                            Some(d) => {
                                assert(v[k + 1] == r[k]);
                            },
                            None => {
                                assert(v[k] == r[k]);
                            },
                        }
                    }
                }
            },
            Err(_) => {},
        }
    }
}

/// No header name occurs twice (as in the header map of the batch API's answer).
pub open spec fn keys_distinct(hs: Seq<(Seq<char>, Seq<char>)>) -> bool {
    forall|i: int, j: int| 0 <= i < j < hs.len() ==> #[trigger] hs[i].0 != #[trigger] hs[j].0
}

/// Every download offered in the answer names each header once.
pub open spec fn answer_keys_distinct(objs: Seq<BatchResponseObject>) -> bool {
    forall|i: int|
        0 <= i < objs.len() ==> (download_of(#[trigger] objs[i]) matches Some(d) ==> keys_distinct(
            headers_of(d),
        ))
}

/// The downloads taken from an answer whose header maps name each header once
/// name each header once too.
pub proof fn law_download_headers_keep_distinct_keys(objs: Seq<BatchResponseObject>)
    requires
        answer_keys_distinct(objs),
    ensures
        batch_downloads(objs) matches Ok(v) ==> forall|k: int|
            0 <= k < v.len() ==> keys_distinct(#[trigger] v[k].2),
    decreases objs.len(),
{
    if objs.len() > 0 {
        let rest = objs.drop_first();
        assert forall|i: int| 0 <= i < rest.len() implies (download_of(#[trigger] rest[i]) matches Some(
            d,
        ) ==> keys_distinct(headers_of(d))) by {
            assert(rest[i] == objs[i + 1]);
        }
        law_download_headers_keep_distinct_keys(rest);
        let o = objs[0];
        if o.error is None {
            match batch_downloads(rest) {
                Ok(r) => match download_of(o) {
                    Some(d) => {
                        let v = seq![(o.oid@, d.href@, headers_of(d))] + r;
                        assert forall|k: int| 0 <= k < v.len() implies keys_distinct(
                            #[trigger] v[k].2,
                        ) by {
                            if k > 0 {
                                assert(v[k] == r[k - 1]);
                            }
                        }
                    },
                    None => {},
                },
                Err(_) => {},
            }
        }
    }
}

/// Download actions as plain values.
pub open spec fn actions_view(v: Seq<DownloadAction>) -> Seq<(Seq<char>, Seq<char>, Seq<(Seq<char>, Seq<char>)>)> {
    v.map_values(|a: DownloadAction| (a.oid@, a.url@, pairs_view(a.headers@)))
}

/// The prefix of downloads, followed by what the rest of the answer gives.
pub open spec fn prepend_downloads(
    acc: Seq<(Seq<char>, Seq<char>, Seq<(Seq<char>, Seq<char>)>)>,
    r: Result<Seq<(Seq<char>, Seq<char>, Seq<(Seq<char>, Seq<char>)>)>, Seq<char>>,
) -> Result<Seq<(Seq<char>, Seq<char>, Seq<(Seq<char>, Seq<char>)>)>, Seq<char>> {
    match r {
        Ok(rest) => Ok(acc + rest),
        Err(m) => Err(m),
    }
}

/// The download actions of a batch answer, or the error it reports for an object.
pub fn collect_download_actions(objects: &Vec<BatchResponseObject>) -> (r: Result<
    Vec<DownloadAction>,
    FgcError,
>)
    ensures
        match r {
            Ok(v) => batch_downloads(objects@) == Ok::<_, Seq<char>>(actions_view(v@)),
            Err(e) => batch_downloads(objects@) == Err::<Seq<(Seq<char>, Seq<char>, Seq<(Seq<char>, Seq<char>)>)>, _>(e@),
        },
        // no object error: the downloads; else the first object's error
        (forall|i: int| 0 <= i < objects@.len() ==> (#[trigger] objects@[i]).error is None) ==> r is Ok,
        forall|i: int|
            0 <= i < objects@.len() && (#[trigger] objects@[i]).error is Some && (forall|j: int|
                0 <= j < i ==> objects@[j].error is None) ==> (r matches Err(e) && e@
                == "LFS batch error for "@ + objects@[i].oid@ + ": "@ + objects@[i].error.unwrap().message@),
{
    proof {
        law_batch_answer(objects@);
    }
    let mut out: Vec<DownloadAction> = Vec::new();
    let mut i: usize = 0;
    assert(objects@.skip(0) =~= objects@);
    assert(actions_view(out@) + Seq::empty() =~= actions_view(out@));
    while i < objects.len()
        invariant
            i <= objects@.len(),
            batch_downloads(objects@) == prepend_downloads(
                actions_view(out@),
                batch_downloads(objects@.skip(i as int)),
            ),
        decreases objects@.len() - i,
    {
        let o = &objects[i];
        assert(objects@.skip(i as int).drop_first() =~= objects@.skip(i + 1));
        assert(objects@.skip(i as int)[0] == *o);
        match &o.error {
            Some(err) => {
                let mut m = owned("LFS batch error for ");
                m.append(o.oid.as_str());
                m.append(": ");
                m.append(err.message.as_str());
                let err = FgcError::new(m);
                proof {
                    law_batch_answer(objects@);
                }
                assert(batch_downloads(objects@) == Err::<
                    Seq<(Seq<char>, Seq<char>, Seq<(Seq<char>, Seq<char>)>)>,
                    Seq<char>,
                >(err@));
                return Err(err);
            },
            None => {},
        }
        let download = match &o.actions {
            Some(a) => match &a.download {
                Some(d) => Some(d),
                None => None,
            },
            None => None,
        };
        match download {
            Some(d) => {
                let headers = match &d.header {
                    Some(h) => clone_pairs(h),
                    None => Vec::new(),
                };
                assert(pairs_view(headers@) =~= headers_of(*d));
                let ghost before = actions_view(out@);
                out.push(
                    DownloadAction { oid: o.oid.clone(), url: d.href.clone(), headers },
                );
                assert(actions_view(out@) =~= before + seq![(o.oid@, d.href@, headers_of(*d))]);
                proof {
                    match batch_downloads(objects@.skip(i + 1)) {
                        Ok(rest) => {
                            assert(before + seq![(o.oid@, d.href@, headers_of(*d))] + rest
                                =~= before + (seq![(o.oid@, d.href@, headers_of(*d))] + rest));
                        },
                        Err(_) => {},
                    }
                }
            },
            None => {},
        }
        i += 1;
    }
    proof {
        assert(objects@.skip(i as int) =~= Seq::<BatchResponseObject>::empty());
        assert(actions_view(out@) + Seq::empty() =~= actions_view(out@));
    }
    proof {
        law_batch_answer(objects@);
    }
    Ok(out)
}

// ---------------------------------------------------------------------------
// The LFS endpoint and credentials
// ---------------------------------------------------------------------------

/// The value `git config --get` prints: its output without surrounding white space.
pub fn git_config_value(stdout: &[u8]) -> (v: String)
    ensures
        v@ == trim_ws(utf8_lossy_of(stdout@)),
{
    let text = utf8_lossy(stdout);
    trim(text.as_str())
}

/// A remote URL in `https` form: without trailing slashes and `.git`, and with the
/// `git@github.com:` form rewritten to `https://github.com/`.
pub open spec fn normalized_remote(url: Seq<char>) -> Seq<char> {
    let u = trim_end_str(trim_end_char(url, '/'), ".git"@);
    if has_prefix(u, "git@github.com:"@) {
        "https://github.com/"@ + trim_start_str(u, "git@github.com:"@)
    } else {
        u
    }
}

/// A remote URL in `https` form.
pub fn normalize_remote_url(url: &str) -> (r: String)
    ensures
        r@ == normalized_remote(url@),
{
    let a = trim_end_matches_char(url, '/');
    let u = trim_end_matches_str(a.as_str(), ".git");
    if starts_with(u.as_str(), "git@github.com:") {
        let path = trim_start_matches_str(u.as_str(), "git@github.com:");
        concat2("https://github.com/", path.as_str())
    } else {
        u
    }
}

/// The batch endpoint named by a configured `lfs.url`, when that could be read and
/// is not empty.
pub fn endpoint_from_lfs_url(lfs_url: &Result<String, FgcError>) -> (r: Option<String>)
    ensures
        match lfs_url {
            Ok(u) => if u@.len() > 0 {
                r matches Some(e) && e@ == trim_end_char(u@, '/') + "/objects/batch"@
            } else {
                r is None
            },
            Err(_) => r is None,
        },
{
    match lfs_url {
        Ok(u) => {
            if u.unicode_len() > 0 {
                let base = trim_end_matches_char(u.as_str(), '/');
                Some(concat2(base.as_str(), "/objects/batch"))
            } else {
                None
            }
        },
        Err(_) => None,
    }
}

/// The batch endpoint of the remote `origin`.
pub fn endpoint_from_remote(remote: &str) -> (r: String)
    ensures
        r@ == normalized_remote(remote@) + "/info/lfs/objects/batch"@,
{
    let base = normalize_remote_url(remote);
    concat2(base.as_str(), "/info/lfs/objects/batch")
}

/// The host and repository path of a remote URL: for `git@host:path` the host is
/// taken to be github.com; otherwise the URL is parsed, and the path loses its
/// leading slashes; in both the path loses its `.git` suffixes.
pub open spec fn remote_host_path(url: Seq<char>) -> Result<(Seq<char>, Seq<char>), Seq<char>> {
    if has_prefix(url, "git@"@) {
        let rest = if has_char(url, ':') {
            after_first(url, ':')
        } else {
            url
        };
        Ok(("github.com"@, trim_end_str(rest, ".git"@)))
    } else {
        match url_parse_of(url) {
            Err(e) => Err("Invalid remote URL: "@ + e),
            Ok((host, path, _)) => Ok(
                (
                    match host {
                        Some(h) => h,
                        None => Seq::empty(),
                    },
                    trim_end_str(trim_start_char(path, '/'), ".git"@),
                ),
            ),
        }
    }
}

/// The host and repository path of a remote URL.
pub fn parse_remote_host_path(url: &str) -> (r: Result<(String, String), FgcError>)
    ensures
        match r {
            Ok((h, p)) => remote_host_path(url@) == Ok::<_, Seq<char>>((h@, p@)),
            Err(e) => remote_host_path(url@) == Err::<(Seq<char>, Seq<char>), _>(e@),
        },
{
    if starts_with(url, "git@") {
        let rest = after_first_char(url, ':');
        let path = trim_end_matches_str(rest.as_str(), ".git");
        proof {
            reveal_strlit("github.com");
        }
        return Ok((owned("github.com"), path));
    }
    match url_parse(url) {
        Err(e) => Err(FgcError::new(concat2("Invalid remote URL: ", e.as_str()))),
        Ok(parts) => {
            let host = match &parts.host {
                Some(h) => h.clone(),
                None => String::new(),
            };
            let p = trim_start_matches_char(parts.path.as_str(), '/');
            let path = trim_end_matches_str(p.as_str(), ".git");
            Ok((host, path))
        },
    }
}

/// The arguments of `git` that ask the credential helper for `host` and `path`.
pub fn credential_fill_args(host: &str, path: &str) -> (v: Vec<String>)
    ensures
        v@.len() == 5,
        v@[0]@ == "credential"@,
        v@[1]@ == "fill"@,
        v@[2]@ == "protocol=https"@,
        v@[3]@ == "host="@ + host@,
        v@[4]@ == "path="@ + path@,
{
    let mut v: Vec<String> = Vec::new();
    v.push(owned("credential"));
    v.push(owned("fill"));
    v.push(owned("protocol=https"));
    v.push(concat2("host=", host));
    v.push(concat2("path=", path));
    v
}

/// The user name and password in the lines of a credential helper's answer: the
/// last `username=` and the last `password=` line win.
pub open spec fn credentials_in(ls: Seq<Seq<char>>) -> (Seq<char>, Seq<char>)
    decreases ls.len(),
{
    if ls.len() == 0 {
        (Seq::empty(), Seq::empty())
    } else {
        let (u, p) = credentials_in(ls.drop_last());
        let l = ls.last();
        if has_prefix(l, "username="@) {
            (l.skip(9), p)
        } else if has_prefix(l, "password="@) {
            (u, l.skip(9))
        } else {
            (u, p)
        }
    }
}

/// The HTTP headers that authenticate with the credentials in a credential
/// helper's answer: basic authentication when both a user name and a password are
/// The user name is what follows `username=` on the last line that starts with
/// it, and empty without such a line; likewise the password with `password=`.
pub proof fn law_credentials_from_last_lines(ls: Seq<Seq<char>>, k: int)
    ensures
        0 <= k < ls.len() && has_prefix(ls[k], "username="@) && (forall|j: int|
            k < j < ls.len() ==> !has_prefix(#[trigger] ls[j], "username="@)) ==> credentials_in(
            ls,
        ).0 == ls[k].skip(9),
        0 <= k < ls.len() && has_prefix(ls[k], "password="@) && !has_prefix(ls[k], "username="@)
            && (forall|j: int| k < j < ls.len() ==> !has_prefix(#[trigger] ls[j], "password="@))
            ==> credentials_in(ls).1 == ls[k].skip(9),
        (forall|j: int| 0 <= j < ls.len() ==> !has_prefix(#[trigger] ls[j], "username="@))
            ==> credentials_in(ls).0.len() == 0,
        (forall|j: int| 0 <= j < ls.len() ==> !has_prefix(#[trigger] ls[j], "password="@))
            ==> credentials_in(ls).1.len() == 0,
    decreases ls.len(),
{
    if ls.len() > 0 {
        let front = ls.drop_last();
        law_credentials_from_last_lines(front, k);
        assert forall|j: int| 0 <= j < front.len() implies #[trigger] front[j] == ls[j] by {}
        if 0 <= k < ls.len() - 1 {
            assert(front[k] == ls[k]);
        }
        let l = ls.last();
        assert(l == ls[ls.len() - 1]);
    }
}

/// given, none otherwise.
pub open spec fn auth_headers_of(output: Seq<char>) -> Seq<(Seq<char>, Seq<char>)> {
    let (u, p) = credentials_in(split_lines(output));
    if u.len() > 0 && p.len() > 0 {
        seq![("Authorization"@, "Basic "@ + base64_standard(bytes_of(u + ":"@ + p)))]
    } else {
        Seq::empty()
    }
}

/// The HTTP headers that authenticate with the credentials a credential helper
/// printed.
pub fn auth_headers(stdout: &[u8]) -> (r: Vec<(String, String)>)
    ensures
        pairs_view(r@) == auth_headers_of(utf8_lossy_of(stdout@)),
{
    proof {
        reveal_strlit("username=");
        reveal_strlit("password=");
    }
    let text = utf8_lossy(stdout);
    let ls = lines(text.as_str());
    let ghost all = split_lines(text@);
    let mut username = String::new();
    let mut password = String::new();
    let mut i: usize = 0;
    while i < ls.len()
        invariant
            ls@.len() == all.len(),
            forall|k: int| 0 <= k < ls@.len() ==> #[trigger] ls@[k]@ == all[k],
            i <= ls@.len(),
            credentials_in(all.take(i as int)) == (username@, password@),
            "username="@.len() == 9,
            "password="@.len() == 9,
        decreases ls@.len() - i,
    {
        assert(all.take(i + 1).drop_last() =~= all.take(i as int));
        match strip_prefix(ls[i].as_str(), "username=") {
            Some(v) => {
                username = v;
            },
            None => match strip_prefix(ls[i].as_str(), "password=") {
                Some(v) => {
                    password = v;
                },
                None => {},
            },
        }
        i += 1;
    }
    assert(all.take(all.len() as int) =~= all);
    let mut headers: Vec<(String, String)> = Vec::new();
    if username.unicode_len() > 0 && password.unicode_len() > 0 {
        let token = base64_encode(concat3(username.as_str(), ":", password.as_str()).as_str());
        headers.push((owned("Authorization"), concat2("Basic ", token.as_str())));
        assert(pairs_view(headers@) =~= auth_headers_of(text@));
    } else {
        assert(pairs_view(headers@) =~= auth_headers_of(text@));
    }
    headers
}

} // verus!

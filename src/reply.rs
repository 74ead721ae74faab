use vstd::prelude::*;
use crate::error::WallError;
use crate::json::{json_of_text, member, member_of, parse_json, Json};
use crate::page::ResultPage;
use crate::text::{decimal_of, parse_decimal};

verus! {

/// An integer member value.
pub open spec fn int_of(v: Option<Json>) -> Option<i64> {
    match v {
        Some(Json::Int(n)) => Some(n),
        _ => None,
    }
}

/// A count member value: an integer, or a decimal number written as text.
pub open spec fn count_of(v: Option<Json>) -> Option<i64> {
    match v {
        Some(Json::Int(n)) => Some(n),
        Some(Json::Text(s)) => decimal_of(s@),
        _ => None,
    }
}

/// The remote path of one search result.
pub open spec fn path_of(item: Json) -> Option<String> {
    match member(item, "path"@) {
        Some(Json::Text(s)) => Some(s),
        _ => None,
    }
}

/// The list of search results of a reply.
pub open spec fn data_of(doc: Json) -> Option<Seq<Json>> {
    match member(doc, "data"@) {
        Some(Json::List(v)) => Some(v@),
        _ => None,
    }
}

/// The paging facts of a reply.
pub open spec fn meta_of(doc: Json) -> Json {
    match member(doc, "meta"@) {
        Some(m) => m,
        None => Json::Null,
    }
}

/// Whether a reply has the shape of a result page: a `data` list whose
/// entries each carry a text `path`, and a `meta` object with an integer
/// `total`, a count `per_page` and an integer `last_page`.
pub open spec fn is_envelope(doc: Json) -> bool {
    &&& data_of(doc) is Some
    &&& forall|i: int| 0 <= i < data_of(doc)->0.len() ==> (#[trigger] path_of(data_of(doc)->0[i])) is Some
    &&& int_of(member(meta_of(doc), "total"@)) is Some
    &&& count_of(member(meta_of(doc), "per_page"@)) is Some
    &&& int_of(member(meta_of(doc), "last_page"@)) is Some
}

/// Whether `p` is what the reply `doc` says of page number `n`.
pub open spec fn reads_as(doc: Json, n: i64, p: ResultPage) -> bool {
    let data = data_of(doc)->0;
    &&& p.items@.len() == data.len()
    &&& forall|i: int| 0 <= i < data.len() ==> p.items@[i] == (#[trigger] path_of(data[i]))->0
    &&& p.total == int_of(member(meta_of(doc), "total"@))->0
    &&& p.per_page == count_of(member(meta_of(doc), "per_page"@))->0
    &&& p.last_page == int_of(member(meta_of(doc), "last_page"@))->0
    &&& p.current_page == n
}

fn int_member(doc: &Json, key: &str) -> (r: Option<i64>)
    ensures
        r == int_of(member(*doc, key@)),
{
    match member_of(doc, key) {
        Some(Json::Int(n)) => Some(*n),
        _ => None,
    }
}

fn count_member(doc: &Json, key: &str) -> (r: Option<i64>)
    ensures
        r == count_of(member(*doc, key@)),
{
    match member_of(doc, key) {
        Some(Json::Int(n)) => Some(*n),
        Some(Json::Text(s)) => parse_decimal(s),
        _ => None,
    }
}

/// Reads page number `page_number` out of a parsed search reply.
pub fn read_page(doc: &Json, page_number: i64) -> (r: Result<ResultPage, WallError>)
    ensures
        match r {
            Ok(p) => is_envelope(*doc) && reads_as(*doc, page_number, p),
            Err(e) => !is_envelope(*doc) && e == WallError::Parse,
        },
{
    let data = match member_of(doc, "data") {
        Some(Json::List(v)) => v,
        _ => return Err(WallError::Parse),
    };
    let mut items: Vec<String> = Vec::new();
    let mut i: usize = 0;
    while i < data.len()
        invariant
            data_of(*doc) == Some(data@),
            i <= data@.len(),
            items@.len() == i,
            forall|j: int| 0 <= j < i ==> (#[trigger] path_of(data@[j])) is Some,
            forall|j: int| 0 <= j < i ==> items@[j] == (#[trigger] path_of(data@[j]))->0,
        decreases data@.len() - i,
    {
        match member_of(&data[i], "path") {
            Some(Json::Text(s)) => items.push(s.clone()),
            _ => {
                assert(path_of(data@[i as int]) is None);
                return Err(WallError::Parse);
            },
        }
        i = i + 1;
    }
    let null = Json::Null;
    let meta = match member_of(doc, "meta") {
        Some(m) => m,
        None => &null,
    };
    let total = int_member(meta, "total");
    let per_page = count_member(meta, "per_page");
    let last_page = int_member(meta, "last_page");
    match (total, per_page, last_page) {
        (Some(total), Some(per_page), Some(last_page)) => Ok(
            ResultPage { items, total, per_page, current_page: page_number, last_page },
        ),
        _ => Err(WallError::Parse),
    }
}

/// Reads page number `page_number` out of the text of a search reply.
pub fn read_reply(body: &str, page_number: i64) -> (r: Result<ResultPage, WallError>)
    ensures
        match json_of_text(body@) {
            None => r == Err::<ResultPage, WallError>(WallError::Parse),
            Some(doc) => match r {
                Ok(p) => is_envelope(doc) && reads_as(doc, page_number, p),
                Err(e) => !is_envelope(doc) && e == WallError::Parse,
            },
        },
{
    match parse_json(body) {
        Some(doc) => read_page(&doc, page_number),
        None => Err(WallError::Parse),
    }
}

} // verus!

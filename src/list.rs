use vstd::prelude::*;

use crate::client::{
    get_query, read_response, send, send_outcome, Client, Identifiable, Method, Readable,
    Request,
};
use crate::error::Error;
use crate::form::{fields_view, form_text, str_eq, FieldView, FormField};
use crate::json::{
    bool_member, item, item_pointer, json_bool_at, json_len_at, json_text_at, len_member, member,
    member_pointer, text_member,
};

verus! {

/// Parameters of a list call, as form fields.
pub trait ListParams {
    spec fn form_spec(&self) -> Seq<FieldView>;

    /// The parameters' fields, in order.
    fn to_form(&self) -> (r: Vec<FormField>)
        ensures
            fields_view(r@) == self.form_spec(),
    ;
}

/// Whether a field name is one of the two cursors.
pub open spec fn is_cursor(name: Seq<char>) -> bool {
    name == "starting_after"@ || name == "ending_before"@
}

/// The fields of `fs` but the cursors, in order.
pub open spec fn without_cursors(fs: Seq<FieldView>) -> Seq<FieldView>
    decreases fs.len(),
{
    if fs.len() == 0 {
        Seq::empty()
    } else {
        let rest = without_cursors(fs.drop_last());
        if is_cursor(fs.last().name) {
            rest
        } else {
            rest.push(fs.last())
        }
    }
}

/// The fields of `fs` with their cursors replaced by the one cursor `name=c`.
pub open spec fn with_cursor(fs: Seq<FieldView>, name: Seq<char>, c: Seq<char>) -> Seq<FieldView> {
    without_cursors(fs).push(FieldView { name, sub: None, value: c })
}

/// The path of a collection, from the URL that a list response gives: without a leading
/// `/v1` where there is one.
pub open spec fn collection_path(url: Seq<char>) -> Seq<char> {
    if url.len() >= 4 && url.subrange(0, 4) == seq!['/', 'v', '1', '/'] {
        url.subrange(3, url.len() as int)
    } else {
        url
    }
}

/// One page of a listing: its items in the server's order, whether more follow, and the
/// URL of the collection.
#[derive(Debug)]
pub struct List<T> {
    data: Vec<T>,
    has_more: bool,
    url: String,
}

impl<T> List<T> {
    pub closed spec fn items(&self) -> Seq<T> {
        self.data@
    }

    pub closed spec fn more(&self) -> bool {
        self.has_more
    }

    pub closed spec fn url_view(&self) -> Seq<char> {
        self.url@
    }

    /// The page's items, in order.
    pub fn data(&self) -> (r: &Vec<T>)
        ensures
            r@ == self.items(),
    {
        &self.data
    }

    /// Whether the server has more items after this page.
    pub fn has_more(&self) -> (r: bool)
        ensures
            r == self.more(),
    {
        self.has_more
    }

    /// The URL of the collection, as the server gave it.
    pub fn url(&self) -> (r: &String)
        ensures
            r@ == self.url_view(),
    {
        &self.url
    }
}

impl<T: Readable> Readable for List<T> {
    open spec fn readable(doc: Seq<u8>, at: Seq<char>) -> bool {
        &&& json_len_at(doc, member(at, "data"@)) is Some
        &&& forall|i: int|
            0 <= i < json_len_at(doc, member(at, "data"@))->Some_0 ==> #[trigger] T::readable(
                doc,
                item(member(at, "data"@), i),
            )
        &&& json_bool_at(doc, member(at, "has_more"@)) is Some
        &&& json_text_at(doc, member(at, "url"@)) is Some
    }

    open spec fn read_as(&self, doc: Seq<u8>, at: Seq<char>) -> bool {
        &&& json_len_at(doc, member(at, "data"@)) == Some(self.items().len())
        &&& forall|i: int|
            0 <= i < self.items().len() ==> (#[trigger] self.items()[i]).read_as(
                doc,
                item(member(at, "data"@), i),
            )
        &&& json_bool_at(doc, member(at, "has_more"@)) == Some(self.more())
        &&& json_text_at(doc, member(at, "url"@)) == Some(self.url_view())
    }

    fn read(doc: &[u8], at: &str) -> (r: Result<Self, Error>) {
        let p = member_pointer(at, "data");
        let n = match len_member(doc, at, "data") {
            Some(n) => n,
            None => {
                return Err(Error::Decode);
            },
        };
        let mut data: Vec<T> = Vec::new();
        let mut i: usize = 0;
        while i < n
            invariant
                p@ == member(at@, "data"@),
                json_len_at(doc@, p@) == Some(n as nat),
                i <= n,
                data@.len() == i,
                forall|j: int| 0 <= j < i ==> #[trigger] T::readable(doc@, item(p@, j)),
                forall|j: int| 0 <= j < i ==> (#[trigger] data@[j]).read_as(doc@, item(p@, j)),
            decreases n - i,
        {
            let ip = item_pointer(p.as_str(), i);
            let v = match T::read(doc, ip.as_str()) {
                Ok(v) => v,
                Err(e) => {
                    return Err(e);
                },
            };
            assert(T::readable(doc@, item(p@, i as int)) && v.read_as(doc@, item(p@, i as int)));
            let ghost before = data@;
            data.push(v);
            assert forall|j: int| 0 <= j <= i implies (#[trigger] data@[j]).read_as(doc@, item(p@, j)) by {
                if j < i {
                    assert(data@[j] == before[j]);
                    assert(before[j].read_as(doc@, item(p@, j)));
                }
            }
            i = i + 1;
        }
        let has_more = match bool_member(doc, at, "has_more") {
            Some(b) => b,
            None => {
                return Err(Error::Decode);
            },
        };
        let url = match text_member(doc, at, "url") {
            Some(u) => u,
            None => {
                return Err(Error::Decode);
            },
        };
        Ok(List { data, has_more, url })
    }
}

fn starts_with_version(url: &str) -> (r: bool)
    ensures
        r == (url@.len() >= 4 && url@.subrange(0, 4) == seq!['/', 'v', '1', '/']),
{
    if url.unicode_len() < 4 {
        return false;
    }
    let r = url.get_char(0) == '/' && url.get_char(1) == 'v' && url.get_char(2) == '1'
        && url.get_char(3) == '/';
    if r {
        assert(url@.subrange(0, 4) =~= seq!['/', 'v', '1', '/']);
    } else {
        assert(url@.subrange(0, 4)[0] == url@[0]);
        assert(url@.subrange(0, 4)[1] == url@[1]);
        assert(url@.subrange(0, 4)[2] == url@[2]);
        assert(url@.subrange(0, 4)[3] == url@[3]);
    }
    r
}

/// The path of the collection that a list response's URL names.
pub fn collection_of(url: &str) -> (r: &str)
    ensures
        r@ == collection_path(url@),
{
    if starts_with_version(url) {
        url.substring_char(3, url.unicode_len())
    } else {
        url
    }
}

fn is_cursor_exec(name: &str) -> (r: bool)
    ensures
        r == is_cursor(name@),
{
    str_eq(name, "starting_after") || str_eq(name, "ending_before")
}

/// The fields of `fields` with their cursors replaced by `name=c`.
pub fn replace_cursor(fields: Vec<FormField>, name: &str, c: String) -> (r: Vec<FormField>)
    ensures
        fields_view(r@) == with_cursor(fields_view(fields@), name@, c@),
{
    let mut out: Vec<FormField> = Vec::new();
    let mut i: usize = 0;
    while i < fields.len()
        invariant
            i <= fields@.len(),
            fields_view(out@) == without_cursors(fields_view(fields@.subrange(0, i as int))),
        decreases fields@.len() - i,
    {
        let f = &fields[i];
        let ghost before = out@;
        proof {
            let pre = fields_view(fields@.subrange(0, i as int + 1));
            assert(pre.drop_last() =~= fields_view(fields@.subrange(0, i as int)));
            assert(pre.last() == f@);
        }
        if !is_cursor_exec(f.name.as_str()) {
            let g = FormField { name: f.name.clone(), sub: f.sub.clone(), value: f.value.clone() };
            assert(g@ == f@);
            out.push(g);
            assert(fields_view(out@) =~= fields_view(before).push(g@));
        }
        i = i + 1;
    }
    assert(fields@.subrange(0, fields@.len() as int) =~= fields@);
    let ghost before = out@;
    let g = FormField::plain(name, c);
    out.push(g);
    assert(fields_view(out@) =~= fields_view(before).push(g@));
    out
}

/// The cursors' names appear nowhere in the fields that remain once they are taken out.
proof fn lemma_without_cursors(fs: Seq<FieldView>)
    ensures
        forall|i: int|
            0 <= i < without_cursors(fs).len() ==> !is_cursor(
                (#[trigger] without_cursors(fs)[i]).name,
            ),
    decreases fs.len(),
{
    if fs.len() > 0 {
        lemma_without_cursors(fs.drop_last());
    }
}

/// The request for the page after the current one carries exactly one `starting_after`,
/// the last field, whose value is the cursor; every other field of the parameters but the
/// cursors is kept in order.
pub proof fn lemma_next_page_cursor(fs: Seq<FieldView>, c: Seq<char>)
    ensures
        with_cursor(fs, "starting_after"@, c).last() == (FieldView {
            name: "starting_after"@,
            sub: None,
            value: c,
        }),
        forall|i: int|
            0 <= i < with_cursor(fs, "starting_after"@, c).len() - 1 ==> (
            #[trigger] with_cursor(fs, "starting_after"@, c)[i]).name != "starting_after"@,
        with_cursor(fs, "starting_after"@, c).drop_last() == without_cursors(fs),
{
    lemma_without_cursors(fs);
    let w = with_cursor(fs, "starting_after"@, c);
    assert(w.drop_last() =~= without_cursors(fs));
    assert forall|i: int| 0 <= i < w.len() - 1 implies (#[trigger] w[i]).name
        != "starting_after"@ by {
        assert(w[i] == without_cursors(fs)[i]);
    }
}

impl<T: Readable + Identifiable> List<T> {
    /// The cursor for the page after this one: the identifier of the last item.
    pub fn next_cursor(&self) -> (r: Result<String, Error>)
        ensures
            match r {
                Ok(c) => self.items().len() > 0 && c@ == self.items().last().spec_id(),
                Err(e) => self.items().len() == 0 && e is InvalidCursor,
            },
    {
        let n = self.data.len();
        if n == 0 {
            Err(Error::InvalidCursor)
        } else {
            Ok(String::from_str(self.data[n - 1].id()))
        }
    }

    /// The cursor for the page before this one: the identifier of the first item.
    pub fn previous_cursor(&self) -> (r: Result<String, Error>)
        ensures
            match r {
                Ok(c) => self.items().len() > 0 && c@ == self.items()[0].spec_id(),
                Err(e) => self.items().len() == 0 && e is InvalidCursor,
            },
    {
        if self.data.len() == 0 {
            Err(Error::InvalidCursor)
        } else {
            Ok(String::from_str(self.data[0].id()))
        }
    }

    /// The request for the page after this one: the collection's path, with the parameters
    /// as query string, their cursors replaced by `starting_after` set to the last item's
    /// identifier.
    pub fn next_page_request<P: ListParams>(&self, params: &P) -> (r: Result<Request, Error>)
        ensures
            match r {
                Ok(req) => self.items().len() > 0 && req.method == Method::Get && req.body is None
                    && req.path@ == collection_path(self.url_view()) + seq!['?'] + form_text(
                    with_cursor(
                        params.form_spec(),
                        "starting_after"@,
                        self.items().last().spec_id(),
                    ),
                ),
                Err(e) => self.items().len() == 0 && e is InvalidCursor,
            },
    {
        let c = match self.next_cursor() {
            Ok(c) => c,
            Err(e) => {
                return Err(e);
            },
        };
        let fields = replace_cursor(params.to_form(), "starting_after", c);
        Ok(get_query(collection_of(self.url.as_str()), &fields))
    }

    /// The request for the page before this one, set by `ending_before` to the first item's
    /// identifier.
    pub fn previous_page_request<P: ListParams>(&self, params: &P) -> (r: Result<Request, Error>)
        ensures
            match r {
                Ok(req) => self.items().len() > 0 && req.method == Method::Get && req.body is None
                    && req.path@ == collection_path(self.url_view()) + seq!['?'] + form_text(
                    with_cursor(params.form_spec(), "ending_before"@, self.items()[0].spec_id()),
                ),
                Err(e) => self.items().len() == 0 && e is InvalidCursor,
            },
    {
        let c = match self.previous_cursor() {
            Ok(c) => c,
            Err(e) => {
                return Err(e);
            },
        };
        let fields = replace_cursor(params.to_form(), "ending_before", c);
        Ok(get_query(collection_of(self.url.as_str()), &fields))
    }

    /// Fetches the page after this one. Where the server has no more, that page is empty
    /// and asks for nothing; where it has more but this page is empty, there is no cursor
    /// to go on from.
    pub fn next_page<C: Client, P: ListParams>(&self, client: &C, params: &P) -> (r: Result<
        List<T>,
        Error,
    >)
        ensures
            !self.more() ==> (r matches Ok(l) && l.items().len() == 0 && !l.more()
                && l.url_view() == self.url_view()),
            self.more() && self.items().len() == 0 ==> (r matches Err(e) && e is InvalidCursor),
            self.more() && self.items().len() > 0 ==> send_outcome(r),
    {
        if !self.has_more {
            return Ok(List { data: Vec::new(), has_more: false, url: self.url.clone() });
        }
        let req = match self.next_page_request(params) {
            Ok(req) => req,
            Err(e) => {
                return Err(e);
            },
        };
        let resp = send(client, &req);
        let ghost g = resp;
        let r = read_response(resp);
        assert(crate::client::response_outcome(g, r));
        r
    }
}

} // verus!

//! Posts: their publication states, the form that creates them, and the
//! plain-text summary of a post's HTML body.

use crate::text::{joined, join_strings, same_text, string_views};
use chrono::NaiveDateTime;
use scraper::element_ref::ElementRef;
use scraper::html::Html;
use vstd::prelude::*;
use vstd::utf8::{
    decode_utf8, decode_utf8_split, encode_utf8, encode_utf8_decode_utf8, encode_utf8_valid_utf8,
    is_char_boundary,
};

verus! {

/// Declares `chrono::NaiveDateTime`, which posts carry as their creation and
/// update dates; nothing is stated of its values, which the logic only passes on.
#[verifier::external_type_specification]
#[verifier::external_body]
pub struct ExNaiveDateTime(NaiveDateTime);

/// The number of bytes that a post's summary keeps of its body's text.
pub const SUMMARY_BYTES: usize = 50;

/// For each node of the tree that `scraper` parses from the HTML fragment
/// `content`, in the order the nodes were inserted: for an element, the
/// texts under it in the order its `text()` iterator gives them; for any
/// other node, `None`.
pub uninterp spec fn html_node_texts(content: Seq<char>) -> Seq<Option<Seq<Seq<char>>>>;

/// Parses the HTML fragment `content` and lists, node by node, the texts of
/// each element.
///
/// Calls `Html::parse_fragment`, walks `tree.nodes()`, and for each node
/// gives `Some` of the strings of `text()` where `ElementRef::wrap` takes it
/// as an element, `None` otherwise. The contract claims that the result is
/// the named function of the fragment.
#[verifier::external_body]
fn node_texts(content: &str) -> (res: Vec<Option<Vec<String>>>)
    ensures
        res.deep_view() == html_node_texts(content@),
{
    let doc = Html::parse_fragment(content);
    let mut res = Vec::new();
    for node in doc.tree.nodes() {
        res.push(match ElementRef::wrap(node) {
            Some(el) => Some(el.text().map(|t| t.to_string()).collect()),
            None => None,
        });
    }
    res
}

/// The texts of the element nodes, one node after another; other nodes
/// contribute nothing.
pub open spec fn flatten_elements(nodes: Seq<Option<Seq<Seq<char>>>>) -> Seq<Seq<char>>
    decreases nodes.len(),
{
    if nodes.len() == 0 {
        Seq::empty()
    } else {
        flatten_elements(nodes.drop_last()) + match nodes.last() {
            Some(texts) => texts,
            None => Seq::empty(),
        }
    }
}

/// Every element node contributes all of its texts, in order, and any other
/// node contributes nothing: flattening `nodes` followed by one more node
/// gives the flattening of `nodes` followed by that node's texts.
pub proof fn flatten_elements_push(nodes: Seq<Option<Seq<Seq<char>>>>, texts: Seq<Seq<char>>)
    ensures
        flatten_elements(Seq::<Option<Seq<Seq<char>>>>::empty()) == Seq::<Seq<char>>::empty(),
        flatten_elements(nodes.push(Some(texts))) == flatten_elements(nodes) + texts,
        flatten_elements(nodes.push(None)) == flatten_elements(nodes),
{
    assert(nodes.push(Some(texts)).drop_last() =~= nodes);
    assert(nodes.push(None::<Seq<Seq<char>>>).drop_last() =~= nodes);
    assert(flatten_elements(nodes) + Seq::<Seq<char>>::empty() =~= flatten_elements(nodes));
}

/// Flattening two lists of nodes one after the other is flattening each and
/// putting the results one after the other.
pub proof fn flatten_elements_concat(
    a: Seq<Option<Seq<Seq<char>>>>,
    b: Seq<Option<Seq<Seq<char>>>>,
)
    ensures
        flatten_elements(a + b) == flatten_elements(a) + flatten_elements(b),
    decreases b.len(),
{
    if b.len() == 0 {
        assert(a + b =~= a);
        assert(flatten_elements(a) + Seq::<Seq<char>>::empty() =~= flatten_elements(a));
    } else {
        let c = b.drop_last();
        flatten_elements_concat(a, c);
        assert((a + b).drop_last() =~= a + c);
        assert((a + b).last() == b.last());
        let tail = match b.last() {
            Some(t) => t,
            None => Seq::<Seq<char>>::empty(),
        };
        assert(flatten_elements(a + b) == flatten_elements(a + c) + tail);
        assert(flatten_elements(b) == flatten_elements(c) + tail);
        assert(flatten_elements(a) + flatten_elements(c) + tail =~= flatten_elements(a) + (
        flatten_elements(c) + tail));
    }
}

/// The texts of a post body: for each element of its HTML, the texts under it.
pub open spec fn element_texts(content: Seq<char>) -> Seq<Seq<char>> {
    flatten_elements(html_node_texts(content))
}

/// The texts of the element nodes of `nodes`, in order.
pub fn element_texts_of(nodes: &Vec<Option<Vec<String>>>) -> (res: Vec<String>)
    ensures
        res.deep_view() == flatten_elements(nodes.deep_view()),
{
    let ghost all = nodes.deep_view();
    let mut res: Vec<String> = Vec::new();
    let mut i: usize = 0;
    while i < nodes.len()
        invariant
            i <= nodes.len(),
            all == nodes.deep_view(),
            res.deep_view() == flatten_elements(all.take(i as int)),
        decreases nodes.len() - i,
    {
        assert(all.take(i + 1).drop_last() =~= all.take(i as int));
        match &nodes[i] {
            Some(texts) => {
                let ghost before = res.deep_view();
                let mut j: usize = 0;
                while j < texts.len()
                    invariant
                        j <= texts.len(),
                        res.deep_view() == before + texts.deep_view().take(j as int),
                    decreases texts.len() - j,
                {
                    let t = texts[j].clone();
                    let ghost prev = res.deep_view();
                    res.push(t);
                    assert(res.deep_view() =~= prev.push(texts.deep_view()[j as int]));
                    assert(texts.deep_view().take(j + 1) =~= texts.deep_view().take(j as int).push(
                        texts.deep_view()[j as int],
                    ));
                    j = j + 1;
                }
                assert(texts.deep_view().take(texts.len() as int) =~= texts.deep_view());
            },
            None => {
                assert(res.deep_view() =~= flatten_elements(all.take(i as int)) + Seq::<
                    Seq<char>,
                >::empty());
            },
        }
        i = i + 1;
    }
    assert(all.take(nodes.len() as int) =~= all);
    res
}

/// The texts of the elements of the HTML fragment `content`.
pub fn body_texts(content: &str) -> (res: Vec<String>)
    ensures
        res.deep_view() == element_texts(content@),
{
    let nodes = node_texts(content);
    element_texts_of(&nodes)
}

/// The plain text of a post body: its element texts joined with spaces.
pub open spec fn body_text(content: Seq<char>) -> Seq<char> {
    joined(element_texts(content), " "@)
}

/// Whether the summary of `content` can be cut: its text has at least
/// `SUMMARY_BYTES` bytes, and a character starts at that byte.
pub open spec fn summary_fits(content: Seq<char>) -> bool {
    is_char_boundary(encode_utf8(body_text(content)), SUMMARY_BYTES as int)
}

/// A summary cut as `sanitize_body` cuts it is a prefix of the body's text,
/// and its UTF-8 encoding is exactly `SUMMARY_BYTES` bytes long.
pub proof fn summary_is_prefix_of_text(text: Seq<char>, summary: Seq<char>)
    requires
        is_char_boundary(encode_utf8(text), SUMMARY_BYTES as int),
        encode_utf8(summary) == encode_utf8(text).subrange(0, SUMMARY_BYTES as int),
    ensures
        summary.len() <= text.len(),
        summary == text.subrange(0, summary.len() as int),
        encode_utf8(summary).len() == SUMMARY_BYTES,
{
    let bytes = encode_utf8(text);
    let cut = SUMMARY_BYTES as int;
    encode_utf8_valid_utf8(text);
    encode_utf8_decode_utf8(text);
    encode_utf8_decode_utf8(summary);
    decode_utf8_split(bytes, cut);
    let rest = decode_utf8(bytes.subrange(cut, bytes.len() as int));
    assert(text == summary + rest);
    assert(text.subrange(0, summary.len() as int) =~= summary);
}

/// The summary of the texts `texts`: the first `SUMMARY_BYTES` bytes of
/// their join with spaces, or `None` where the join is shorter or no
/// character starts at that byte.
pub fn summarize_texts(texts: &Vec<String>) -> (res: Option<String>)
    ensures
        res is Some <==> is_char_boundary(
            encode_utf8(joined(texts.deep_view(), " "@)),
            SUMMARY_BYTES as int,
        ),
        res matches Some(s) ==> encode_utf8(s@) == encode_utf8(
            joined(texts.deep_view(), " "@),
        ).subrange(0, SUMMARY_BYTES as int),
        res matches Some(s) ==> s@ == joined(texts.deep_view(), " "@).subrange(0, s@.len() as int),
{
    let doc_text = join_strings(texts, " ");
    assert(string_views(texts@) =~= texts.deep_view());
    if doc_text.as_str().is_char_boundary(SUMMARY_BYTES) {
        let (head, _rest) = doc_text.as_str().split_at(SUMMARY_BYTES);
        let summary = head.to_owned();
        proof {
            summary_is_prefix_of_text(doc_text@, summary@);
        }
        Some(summary)
    } else {
        None
    }
}

/// The summary of a post body: the first `SUMMARY_BYTES` bytes of its text.
pub fn sanitize_body(content: String) -> (res: String)
    requires
        summary_fits(content@),
    ensures
        encode_utf8(res@) == encode_utf8(body_text(content@)).subrange(0, SUMMARY_BYTES as int),
        res@ == body_text(content@).subrange(0, res@.len() as int),
{
    let texts = body_texts(content.as_str());
    let summary = summarize_texts(&texts);
    summary.unwrap()
}

/// The summary of a post body, or `None` where its text is too short to cut
/// or no character starts at the cut.
pub fn try_sanitize_body(content: String) -> (res: Option<String>)
    ensures
        res is Some <==> summary_fits(content@),
        res matches Some(s) ==> encode_utf8(s@) == encode_utf8(body_text(content@)).subrange(
            0,
            SUMMARY_BYTES as int,
        ),
        res matches Some(s) ==> s@ == body_text(content@).subrange(0, s@.len() as int),
{
    let texts = body_texts(content.as_str());
    summarize_texts(&texts)
}

/// The states a post can be in, in the order of its life.
pub open spec fn post_states() -> Seq<Seq<char>> {
    seq!["Draft"@, "Review"@, "Published"@]
}

/// Whether `state` is one of the states a post can be in.
pub open spec fn is_post_state(state: Seq<char>) -> bool {
    post_states().contains(state)
}

/// The title and content a user submits for a post.
pub struct PostInputForm {
    title: String,
    content: String,
}

impl PostInputForm {
    pub closed spec fn title_spec(&self) -> Seq<char> {
        self.title@
    }

    pub closed spec fn content_spec(&self) -> Seq<char> {
        self.content@
    }

    pub fn new(title: String, content: String) -> (res: PostInputForm)
        ensures
            res.title_spec() == title@,
            res.content_spec() == content@,
    {
        PostInputForm { title, content }
    }

    pub fn title(&self) -> (res: &String)
        ensures
            res@ == self.title_spec(),
    {
        &self.title
    }

    pub fn content(&self) -> (res: &String)
        ensures
            res@ == self.content_spec(),
    {
        &self.content
    }
}

/// A post as it is stored.
pub struct Post {
    pub id: u64,
    pub title: String,
    pub body: String,
    pub truncated_content: String,
    pub status: String,
    pub user_id: u64,
}

impl Post {
    /// A new draft post of the user `user_id` with the submitted title and content.
    pub fn build_from(form: &PostInputForm, user_id: u64) -> (res: Post)
        ensures
            res.id == 0,
            res.title@ == form.title_spec(),
            res.body@ == form.content_spec(),
            res.status@ == "Draft"@,
            res.truncated_content@ == ""@,
            res.user_id == user_id,
            is_post_state(res.status@),
    {
        let res = Post {
            id: 0,
            title: form.title().clone(),
            body: form.content().clone(),
            status: "Draft".to_owned(),
            truncated_content: "".to_owned(),
            user_id,
        };
        assert(post_states()[0] == res.status@);
        res
    }

    /// The state the post is in.
    pub fn current_state(&self) -> (res: &String)
        ensures
            res@ == self.status@,
    {
        &self.status
    }

    /// Moves the post to the state `new_state`, which must be a post state.
    pub fn move_to(&mut self, new_state: String)
        requires
            is_post_state(new_state@),
        ensures
            final(self).status@ == new_state@,
            final(self).id == old(self).id,
            final(self).title == old(self).title,
            final(self).body == old(self).body,
            final(self).truncated_content == old(self).truncated_content,
            final(self).user_id == old(self).user_id,
    {
        if Self::is_valid_state(&new_state) {
            self.status = new_state;
        }
    }

    /// Publishes the post.
    pub fn publish(&mut self)
        ensures
            final(self).status@ == "Published"@,
            final(self).id == old(self).id,
            final(self).title == old(self).title,
            final(self).body == old(self).body,
            final(self).truncated_content == old(self).truncated_content,
            final(self).user_id == old(self).user_id,
    {
        let published = "Published".to_owned();
        assert(post_states()[2] == published@);
        self.move_to(published);
    }

    /// Whether `state` is one of the states a post can be in.
    pub fn is_valid_state(state: &String) -> (res: bool)
        ensures
            res == is_post_state(state@),
    {
        let states = Self::valid_states();
        let mut i: usize = 0;
        while i < states.len()
            invariant
                i <= states.len(),
                states@.len() == post_states().len(),
                forall|j: int| 0 <= j < states@.len() ==> #[trigger] states@[j]@ == post_states()[j],
                forall|j: int| 0 <= j < i ==> post_states()[j] != state@,
            decreases states.len() - i,
        {
            if same_text(states[i], state.as_str()) {
                assert(post_states()[i as int] == state@);
                return true;
            }
            i = i + 1;
        }
        assert(!post_states().contains(state@));
        false
    }

    /// The states a post can be in, in the order of its life.
    pub fn valid_states() -> (res: Vec<&'static str>)
        ensures
            res@.len() == post_states().len(),
            forall|j: int| 0 <= j < res@.len() ==> #[trigger] res@[j]@ == post_states()[j],
    {
        vec!["Draft", "Review", "Published"]
    }
}

/// A stored post with its dates, as the pages show it.
pub struct PostQueryable {
    pub id: u64,
    pub title: String,
    pub body: String,
    pub truncated_content: String,
    pub status: String,
    pub user_id: u64,
    pub created_date: NaiveDateTime,
    pub created_at: NaiveDateTime,
    pub updated_date: NaiveDateTime,
    pub updated_at: NaiveDateTime,
}

impl PostQueryable {
    /// The post of a stored row (id, title, body, status, author, created,
    /// updated), with the summary of its body.
    pub fn build(row: (u64, String, String, String, u64, NaiveDateTime, NaiveDateTime)) -> (res:
        PostQueryable)
        requires
            summary_fits(row.2@),
        ensures
            res.id == row.0,
            res.title@ == row.1@,
            res.body@ == row.2@,
            encode_utf8(res.truncated_content@) == encode_utf8(body_text(row.2@)).subrange(
                0,
                SUMMARY_BYTES as int,
            ),
            res.status@ == row.3@,
            res.user_id == row.4,
            res.created_at == row.5,
            res.created_date == row.5,
            res.updated_at == row.6,
            res.updated_date == row.6,
    {
        let (id, title, body, status, user_id, created, updated) = row;
        let body_copy = body.clone();
        PostQueryable {
            id,
            title,
            body: body_copy,
            truncated_content: sanitize_body(body),
            status,
            user_id,
            created_at: created,
            updated_at: updated,
            created_date: created,
            updated_date: updated,
        }
    }

    /// The post of a stored row, or `None` where the summary of its body
    /// cannot be cut.
    pub fn try_build(row: (u64, String, String, String, u64, NaiveDateTime, NaiveDateTime)) -> (res:
        Option<PostQueryable>)
        ensures
            res is Some <==> summary_fits(row.2@),
            res matches Some(p) ==> p.id == row.0 && p.title@ == row.1@ && p.body@ == row.2@
                && encode_utf8(p.truncated_content@) == encode_utf8(body_text(row.2@)).subrange(
                0,
                SUMMARY_BYTES as int,
            ) && p.status@ == row.3@ && p.user_id == row.4 && p.created_at == row.5
                && p.created_date == row.5 && p.updated_at == row.6 && p.updated_date == row.6,
    {
        if try_sanitize_body(row.2.clone()).is_some() {
            Some(PostQueryable::build(row))
        } else {
            None
        }
    }
}

} // verus!

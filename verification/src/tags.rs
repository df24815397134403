//! Tags: the `|#key:value,key:value` suffix of a datagram.
use std::collections::HashMap;
use vstd::prelude::*;
use vstd::std_specs::hash::*;
use vstd::std_specs::iter::VerusForLoopWrapper;
use vstd::string::*;
use crate::render::Renderable;
use crate::DatagramFormat;

verus! {

/// The text of one tag: key, colon, value. Nothing is escaped.
pub open spec fn tag_text(key: Seq<char>, value: Seq<char>) -> Seq<char> {
    key + seq![':'] + value
}

/// The texts of the given tags, in their order, with a comma between each
/// two of them.
pub open spec fn joined_tags(pairs: Seq<(Seq<char>, Seq<char>)>) -> Seq<char>
    decreases pairs.len(),
{
    if pairs.len() == 0 {
        Seq::empty()
    } else if pairs.len() == 1 {
        tag_text(pairs[0].0, pairs[0].1)
    } else {
        joined_tags(pairs.drop_last()) + seq![','] + tag_text(pairs.last().0, pairs.last().1)
    }
}

/// The tag suffix of a datagram: nothing for no tags, else `|#` and the
/// joined tags.
pub open spec fn tags_text(pairs: Seq<(Seq<char>, Seq<char>)>) -> Seq<char> {
    if pairs.len() == 0 {
        Seq::empty()
    } else {
        seq!['|', '#'] + joined_tags(pairs)
    }
}

/// Anything that can be turned into a tag: it has a key and a value, both
/// with a text form.
pub trait Tag {
    /// The text of the key.
    spec fn key_text(&self) -> Seq<char>;

    /// The text of the value.
    spec fn value_text(&self) -> Seq<char>;

    /// Appends the tag to `w` as `key:value`.
    fn write(&self, w: &mut String)
        ensures
            final(w)@ == old(w)@ + tag_text(self.key_text(), self.value_text()),
    ;
}

/// Appends `key:value` to `w`.
fn write_pair<K: Renderable, V: Renderable>(key: &K, value: &V, w: &mut String)
    ensures
        final(w)@ == old(w)@ + tag_text(key.text(), value.text()),
{
    proof {
        reveal_strlit(":");
    }
    key.render_into(w);
    w.append(":");
    value.render_into(w);
}

/// A pair of a key and a value is a tag.
impl<K: Renderable, V: Renderable> Tag for (K, V) {
    open spec fn key_text(&self) -> Seq<char> {
        self.0.text()
    }

    open spec fn value_text(&self) -> Seq<char> {
        self.1.text()
    }

    fn write(&self, w: &mut String) {
        write_pair(&self.0, &self.1, w);
    }
}

/// An entry of a map, as the map hands it out.
struct Entry<'a, K, V> {
    key: &'a K,
    value: &'a V,
}

impl<'a, K: Renderable, V: Renderable> Tag for Entry<'a, K, V> {
    closed spec fn key_text(&self) -> Seq<char> {
        self.key.text()
    }

    closed spec fn value_text(&self) -> Seq<char> {
        self.value.text()
    }

    fn write(&self, w: &mut String) {
        write_pair(self.key, self.value, w);
    }
}

/// The keys and values of a sequence of tags, as texts.
pub open spec fn tag_pairs<T: Tag>(tags: Seq<T>) -> Seq<(Seq<char>, Seq<char>)> {
    Seq::new(tags.len(), |i: int| (tags[i].key_text(), tags[i].value_text()))
}

/// Renders tags in the order given.
pub fn render_tags<T: Tag>(tags: &[T]) -> (text: String)
    ensures
        text@ == tags_text(tag_pairs(tags@)),
{
    let mut buf = String::new();
    if tags.len() == 0 {
        return buf;
    }
    proof {
        reveal_strlit("|#");
    }
    buf.append("|#");
    let ghost pairs = tag_pairs(tags@);
    let mut i: usize = 0;
    while i < tags.len()
        invariant
            i <= tags.len(),
            pairs == tag_pairs(tags@),
            buf@ == seq!['|', '#'] + joined_tags(pairs.take(i as int)),
        decreases tags.len() - i,
    {
        if i > 0 {
            proof {
                reveal_strlit(",");
            }
            buf.append(",");
        }
        tags[i].write(&mut buf);
        assert(pairs.take(i + 1).drop_last() =~= pairs.take(i as int));
        i = i + 1;
    }
    assert(pairs.take(tags.len() as int) =~= pairs);
    buf
}

/// No tags give no suffix at all: not even `|#`.
pub proof fn lemma_no_tags()
    ensures
        tags_text(Seq::empty()) == Seq::<char>::empty(),
{
}

/// One tag gives `|#<key>:<value>`.
pub proof fn lemma_single_tag(key: Seq<char>, value: Seq<char>)
    ensures
        tags_text(seq![(key, value)]) == "|#"@ + key + ":"@ + value,
{
    reveal_strlit("|#");
    reveal_strlit(":");
}

/// One more tag after some others adds `,<key>:<value>` to their suffix: the
/// tags stand in their order with one comma between each two, and none after
/// the last.
pub proof fn lemma_one_more_tag(pairs: Seq<(Seq<char>, Seq<char>)>, key: Seq<char>, value: Seq<char>)
    requires
        pairs.len() > 0,
    ensures
        tags_text(pairs.push((key, value))) == tags_text(pairs) + ","@ + key + ":"@ + value,
{
    reveal_strlit(",");
    reveal_strlit(":");
    let more = pairs.push((key, value));
    assert(more.drop_last() =~= pairs);
}

/// Tags in a vector are sent in its order.
impl<T: Tag> DatagramFormat for Vec<T> {
    open spec fn formats_as(&self, text: Seq<char>) -> bool {
        text == tags_text(tag_pairs(self@))
    }

    fn format(&self) -> (text: String) {
        render_tags(self.as_slice())
    }
}

/// Whether `order` holds each entry of `entries` once, and nothing else.
pub open spec fn is_order_of<K, V>(order: Seq<(K, V)>, entries: Map<K, V>) -> bool {
    order.no_duplicates() && order.to_set() == entries.kv_pairs()
}

/// A map of one entry has one order only, so its tags have one text:
/// `|#<key>:<value>`.
pub proof fn lemma_order_of_one_entry<K, V>(order: Seq<(K, V)>, key: K, value: V)
    requires
        is_order_of(order, map![key => value]),
    ensures
        order == seq![(key, value)],
{
    let entries = map![key => value];
    assert(entries.kv_pairs() =~= set![(key, value)]);
    order.unique_seq_to_set();
    assert(order.to_set().contains(order[0]));
    assert(order =~= seq![(key, value)]);
}

/// Tags in a hash map are sent in the order in which the map hands them
/// out, which is not fixed. An empty map gives the empty text; any other
/// gives the text of some sequence of tags, which holds each entry of the map
/// once and nothing else where the key type is one whose hashing and equality
/// vstd knows to agree with the map's view.
impl<K: Renderable, V: Renderable> DatagramFormat for HashMap<K, V> {
    open spec fn formats_as(&self, text: Seq<char>) -> bool {
        &&& self@.is_empty() ==> text == Seq::<char>::empty()
        &&& exists|order: Seq<(K, V)>|
            text == tags_text(#[trigger] tag_pairs(order)) && (obeys_key_model::<K>()
                ==> is_order_of(order, self@))
    }

    fn format(&self) -> (text: String) {
        broadcast use group_hash_axioms;

        if self.is_empty() {
            proof {
                let none = Seq::<(K, V)>::empty();
                assert(tags_text(tag_pairs(none)) == Seq::<char>::empty());
                assert(none.to_set() =~= self@.kv_pairs());
            }
            return String::new();
        }
        // The loop takes as many entries as the map says it has, so that it
        // ends whatever the key type is.
        let n = self.len();
        let mut entries: Vec<Entry<'_, K, V>> = Vec::new();
        let mut iter = VerusForLoopWrapper::new(self.iter(), Ghost(None));
        let ghost all = iter.seq();
        let mut i: usize = 0;
        while i < n
            invariant
                i <= n,
                iter.wf(),
                iter.seq() == all,
                obeys_key_model::<K>() ==> all.len() == n && iter.index() == i && entries@.len() == i
                    && forall|j: int|
                    0 <= j < i ==> entries@[j].key == all[j].0 && entries@[j].value == all[j].1,
            decreases n - i,
        {
            match iter.next() {
                Some(entry) => {
                    entries.push(Entry { key: entry.0, value: entry.1 });
                },
                None => {},
            }
            i = i + 1;
        }
        let text = render_tags(entries.as_slice());
        proof {
            let order = Seq::new(entries@.len(), |j: int| (*entries@[j].key, *entries@[j].value));
            assert(tag_pairs(entries@) =~= tag_pairs(order));
            if obeys_key_model::<K>() {
                assert(order =~= all.unref());
            }
        }
        text
    }
}

} // verus!

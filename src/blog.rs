//! The blog catalogue: posts compiled into the site, and queries over them.
use vstd::prelude::*;

use crate::text::{lemma_text_order, same_text, text_less, text_less_exec};

verus! {

/// A blog post, in both languages.
#[derive(Debug, Clone)]
pub struct BlogPost {
    pub slug: &'static str,
    pub date: &'static str,
    pub tags: &'static [&'static str],
    pub title_en: &'static str,
    pub title_fr: &'static str,
    pub summary_en: &'static str,
    pub summary_fr: &'static str,
    pub content_en: &'static str,
    pub content_fr: &'static str,
    pub reading_time_en: u32,
    pub reading_time_fr: u32,
    pub category: &'static str,
    pub featured: bool,
    pub toc_html_en: &'static str,
    pub toc_html_fr: &'static str,
    pub has_mermaid: bool,
}

/// Whether `post` carries the tag `tag`.
pub open spec fn has_tag(post: BlogPost, tag: Seq<char>) -> bool {
    exists|j: int| 0 <= j < post.tags@.len() && (#[trigger] post.tags@[j])@ == tag
}

/// Whether `tag` is a tag of some post of `posts`.
pub open spec fn tag_in(posts: Seq<BlogPost>, tag: Seq<char>) -> bool {
    exists|i: int| 0 <= i < posts.len() && has_tag(#[trigger] posts[i], tag)
}

/// Whether the texts of `tags` strictly increase in code-point order.
pub open spec fn strictly_sorted(tags: Seq<&str>) -> bool {
    forall|a: int, b: int| 0 <= a < b < tags.len() ==> text_less(tags[a]@, tags[b]@)
}

/// Whether some text of `tags` is `t`.
pub open spec fn holds_text(tags: Seq<&str>, t: Seq<char>) -> bool {
    exists|k: int| 0 <= k < tags.len() && (#[trigger] tags[k])@ == t
}

/// Whether one of the first `j` texts of `tags` is `t`.
pub open spec fn among_first(tags: Seq<&str>, j: int, t: Seq<char>) -> bool {
    exists|m: int| 0 <= m < j && (#[trigger] tags[m])@ == t
}

impl BlogPost {
    /// The posts compiled into the site, newest first. Posts are generated from
    /// the site's content at build time; this build carries none.
    pub fn all_posts() -> (r: Vec<BlogPost>)
        ensures
            r@.len() == 0,
    {
        Vec::new()
    }

    /// Whether this post carries `tag`.
    fn carries(&self, tag: &str) -> (r: bool)
        ensures
            r == has_tag(*self, tag@),
    {
        let mut j: usize = 0;
        while j < self.tags.len()
            invariant
                j <= self.tags@.len(),
                forall|m: int| 0 <= m < j ==> (#[trigger] self.tags@[m])@ != tag@,
            decreases self.tags@.len() - j,
        {
            if same_text(self.tags[j], tag) {
                return true;
            }
            j = j + 1;
        }
        false
    }

    /// The first post of `posts` whose slug is `slug`.
    pub fn find_by_slug<'a>(posts: &'a [BlogPost], slug: &str) -> (r: Option<&'a BlogPost>)
        ensures
            r is None <==> forall|i: int| 0 <= i < posts@.len() ==> (#[trigger] posts@[i]).slug@ != slug@,
            r is Some ==> exists|i: int|
                0 <= i < posts@.len() && *r->0 == posts@[i] && posts@[i].slug@ == slug@ && forall|j: int|
                    0 <= j < i ==> (#[trigger] posts@[j]).slug@ != slug@,
    {
        let mut i: usize = 0;
        while i < posts.len()
            invariant
                i <= posts@.len(),
                forall|j: int| 0 <= j < i ==> (#[trigger] posts@[j]).slug@ != slug@,
            decreases posts@.len() - i,
        {
            if same_text(posts[i].slug, slug) {
                return Some(&posts[i]);
            }
            i = i + 1;
        }
        None
    }

    /// The posts of `posts` that carry `tag`, in their order.
    pub fn filter_by_tag<'a>(posts: &'a [BlogPost], tag: &str) -> (r: Vec<&'a BlogPost>)
        ensures
            r@.map_values(|p: &BlogPost| *p) == posts@.filter(|p: BlogPost| has_tag(p, tag@)),
    {
        broadcast use Seq::lemma_filter_push;

        let mut r: Vec<&'a BlogPost> = Vec::new();
        let mut i: usize = 0;
        while i < posts.len()
            invariant
                i <= posts@.len(),
                r@.map_values(|p: &BlogPost| *p) == posts@.subrange(0, i as int).filter(
                    |p: BlogPost| has_tag(p, tag@),
                ),
            decreases posts@.len() - i,
        {
            assert(posts@.subrange(0, i + 1) =~= posts@.subrange(0, i as int).push(posts@[i as int]));
            proof {
                posts@.subrange(0, i as int).lemma_filter_push(posts@[i as int], |p: BlogPost| has_tag(p, tag@));
            }
            let ghost before = r@;
            if posts[i].carries(tag) {
                r.push(&posts[i]);
                assert(r@.map_values(|p: &BlogPost| *p) =~= before.map_values(|p: &BlogPost| *p).push(posts@[i as int]));
            }
            i = i + 1;
        }
        assert(posts@.subrange(0, posts@.len() as int) =~= posts@);
        r
    }

    /// Every tag of `posts`, once each, in code-point order.
    pub fn all_tags(posts: &[BlogPost]) -> (r: Vec<&'static str>)
        ensures
            strictly_sorted(r@),
            forall|t: Seq<char>| holds_text(r@, t) <==> tag_in(posts@, t),
    {
        let mut r: Vec<&'static str> = Vec::new();
        let mut i: usize = 0;
        while i < posts.len()
            invariant
                i <= posts@.len(),
                strictly_sorted(r@),
                forall|t: Seq<char>| holds_text(r@, t) <==> tag_in(posts@.subrange(0, i as int), t),
            decreases posts@.len() - i,
        {
            let post = &posts[i];
            let mut j: usize = 0;
            while j < post.tags.len()
                invariant
                    i < posts@.len(),
                    *post == posts@[i as int],
                    j <= post.tags@.len(),
                    strictly_sorted(r@),
                    forall|t: Seq<char>|
                        holds_text(r@, t) <==> tag_in(posts@.subrange(0, i as int), t) || among_first(
                            post.tags@,
                            j as int,
                            t,
                        ),
                decreases post.tags@.len() - j,
            {
                let tag = post.tags[j];
                let ghost prev = r@;
                let mut p: usize = 0;
                while p < r.len() && text_less_exec(r[p], tag)
                    invariant
                        p <= r@.len(),
                        forall|q: int| 0 <= q < p ==> text_less((#[trigger] r@[q])@, tag@),
                    decreases r@.len() - p,
                {
                    p = p + 1;
                }
                if p < r.len() && same_text(r[p], tag) {
                    assert(prev[p as int]@ == tag@);
                    assert(holds_text(prev, tag@));
                    assert forall|t: Seq<char>| holds_text(r@, t) <==> holds_text(prev, t) || t == tag@ by {}
                } else {
                    proof {
                        assert forall|q: int| p <= q < prev.len() implies text_less(tag@, prev[q]@) by {
                            lemma_text_order(prev[p as int]@, tag@, tag@);
                            lemma_text_order(tag@, prev[p as int]@, prev[q]@);
                        }
                    }
                    r.insert(p, tag);
                    proof {
                        assert forall|a: int, b: int| 0 <= a < b < r@.len() implies text_less(r@[a]@, r@[b]@) by {
                            if a < p && b == p {
                            } else if a < p && b > p {
                                assert(r@[b] == prev[b - 1]);
                            } else if a == p {
                                assert(r@[b] == prev[b - 1]);
                            } else if a > p {
                                assert(r@[a] == prev[a - 1] && r@[b] == prev[b - 1]);
                            }
                        }
                        assert forall|t: Seq<char>| holds_text(r@, t) <==> holds_text(prev, t) || t == tag@ by {
                            if holds_text(prev, t) {
                                let k = choose|k: int| 0 <= k < prev.len() && (#[trigger] prev[k])@ == t;
                                if k < p {
                                    assert(r@[k]@ == t);
                                } else {
                                    assert(r@[k + 1]@ == t);
                                }
                            }
                            if t == tag@ {
                                assert(r@[p as int]@ == t);
                            }
                            if holds_text(r@, t) {
                                let k = choose|k: int| 0 <= k < r@.len() && (#[trigger] r@[k])@ == t;
                                if k < p {
                                    assert(prev[k]@ == t);
                                } else if k > p {
                                    assert(prev[k - 1]@ == t);
                                }
                            }
                        }
                    }
                }
                proof {
                    assert forall|t: Seq<char>|
                        among_first(post.tags@, j + 1, t) <==> among_first(post.tags@, j as int, t) || t == tag@ by {
                        if t == tag@ {
                            assert(post.tags@[j as int]@ == t);
                        }
                    }
                    assert forall|t: Seq<char>|
                        holds_text(r@, t) <==> tag_in(posts@.subrange(0, i as int), t) || among_first(
                            post.tags@,
                            j + 1,
                            t,
                        ) by {
                        assert(holds_text(r@, t) <==> holds_text(prev, t) || t == tag@);
                    }
                }
                j = j + 1;
            }
            proof {
                let pre = posts@.subrange(0, i as int);
                let pre1 = posts@.subrange(0, i + 1);
                assert forall|t: Seq<char>| tag_in(pre1, t) <==> tag_in(pre, t) || has_tag(posts@[i as int], t) by {
                    if tag_in(pre, t) {
                        let k = choose|k: int| 0 <= k < pre.len() && has_tag(#[trigger] pre[k], t);
                        assert(pre1[k] == pre[k]);
                    }
                    if has_tag(posts@[i as int], t) {
                        assert(pre1[i as int] == posts@[i as int]);
                    }
                    if tag_in(pre1, t) {
                        let k = choose|k: int| 0 <= k < pre1.len() && has_tag(#[trigger] pre1[k], t);
                        if k < i {
                            assert(pre[k] == pre1[k]);
                        }
                    }
                }
            }
            i = i + 1;
        }
        assert(posts@.subrange(0, posts@.len() as int) =~= posts@);
        r
    }
}

/// Pieces of the JSON-LD block that describes a post.
pub const LD_HEAD: &'static str = "{\n  \"@context\": \"https://schema.org\",\n  \"@type\": \"BlogPosting\",\n  \"headline\": \"";
pub const LD_DESCRIPTION: &'static str = "\",\n  \"description\": \"";
pub const LD_AUTHOR_DATE: &'static str = "\",\n  \"author\": {\n    \"@type\": \"Person\",\n    \"name\": \"Kov\u{221a}\u{b0}cs Kriszti\u{221a}\u{b0}n G\u{221a}\u{a9}za\"\n  },\n  \"datePublished\": \"";
pub const LD_KEYWORDS: &'static str = "\",\n  \"keywords\": [";
pub const LD_PAGE: &'static str = "],\n  \"mainEntityOfPage\": {\n    \"@type\": \"WebPage\",\n    \"@id\": \"https://kovacs.pilgrim.ovh/blog/";
pub const LD_TAIL: &'static str = "\"\n  }\n}";

/// `s` with a backslash before each double quote.
pub open spec fn escape_quotes(s: Seq<char>) -> Seq<char>
    decreases s.len(),
{
    if s.len() == 0 {
        Seq::empty()
    } else {
        escape_quotes(s.drop_last()) + if s.last() == '"' {
            seq!['\\', '"']
        } else {
            seq![s.last()]
        }
    }
}

/// The tags as quoted texts separated by ", ".
pub open spec fn keyword_list(tags: Seq<&str>) -> Seq<char>
    decreases tags.len(),
{
    if tags.len() == 0 {
        Seq::empty()
    } else if tags.len() == 1 {
        seq!['"'] + tags[0]@ + seq!['"']
    } else {
        keyword_list(tags.drop_last()) + seq![',', ' ', '"'] + tags.last()@ + seq!['"']
    }
}

/// The JSON-LD block of `post` in the chosen language.
pub open spec fn json_ld_text(post: BlogPost, is_french: bool) -> Seq<char> {
    let title = if is_french { post.title_fr@ } else { post.title_en@ };
    let summary = if is_french { post.summary_fr@ } else { post.summary_en@ };
    LD_HEAD@ + escape_quotes(title) + LD_DESCRIPTION@ + escape_quotes(summary) + LD_AUTHOR_DATE@
        + post.date@ + LD_KEYWORDS@ + keyword_list(post.tags@) + LD_PAGE@ + post.slug@ + LD_TAIL@
}

/// Appends `s` to `out` with a backslash before each double quote.
fn append_escaped(out: &mut String, s: &str)
    ensures
        final(out)@ == old(out)@ + escape_quotes(s@),
{
    let n = s.unicode_len();
    let mut i: usize = 0;
    while i < n
        invariant
            n == s@.len(),
            i <= n,
            out@ == old(out)@ + escape_quotes(s@.subrange(0, i as int)),
        decreases n - i,
    {
        let ghost before = out@;
        proof {
            reveal_strlit("\\\"");
        }
        assert(s@.subrange(0, i + 1).drop_last() =~= s@.subrange(0, i as int));
        if s.get_char(i) == '"' {
            out.append("\\\"");
            assert(out@ =~= before + seq!['\\', '"']);
        } else {
            out.append(s.substring_char(i, i + 1));
            assert(s@.subrange(i as int, i + 1) =~= seq![s@[i as int]]);
        }
        assert(out@ =~= old(out)@ + escape_quotes(s@.subrange(0, i + 1)));
        i = i + 1;
    }
    assert(s@.subrange(0, n as int) =~= s@);
}

/// The JSON-LD block that describes `post` to search engines, with its title
/// and summary in French when `is_french` is set and in English otherwise.
pub fn generate_json_ld(post: &BlogPost, is_french: bool) -> (r: String)
    ensures
        r@ == json_ld_text(*post, is_french),
{
    let mut r = String::from_str(LD_HEAD);
    append_escaped(&mut r, if is_french { post.title_fr } else { post.title_en });
    r.append(LD_DESCRIPTION);
    append_escaped(&mut r, if is_french { post.summary_fr } else { post.summary_en });
    r.append(LD_AUTHOR_DATE);
    r.append(post.date);
    r.append(LD_KEYWORDS);
    let ghost start = r@;
    let mut j: usize = 0;
    while j < post.tags.len()
        invariant
            j <= post.tags@.len(),
            r@ == start + keyword_list(post.tags@.subrange(0, j as int)),
        decreases post.tags@.len() - j,
    {
        let ghost before = r@;
        proof {
            reveal_strlit("\"");
            reveal_strlit(", \"");
        }
        assert(post.tags@.subrange(0, j + 1).drop_last() =~= post.tags@.subrange(0, j as int));
        if j == 0 {
            r.append("\"");
        } else {
            r.append(", \"");
        }
        r.append(post.tags[j]);
        r.append("\"");
        assert(r@ =~= start + keyword_list(post.tags@.subrange(0, j + 1)));
        j = j + 1;
    }
    assert(post.tags@.subrange(0, post.tags@.len() as int) =~= post.tags@);
    r.append(LD_PAGE);
    r.append(post.slug);
    r.append(LD_TAIL);
    r
}

} // verus!

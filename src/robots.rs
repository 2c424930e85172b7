//! Per-response robots directives: `<meta name="robots">` and the
//! `X-Robots-Tag` header. The effective directives are the union of both.
use vstd::prelude::*;
use crate::text::{chars_of, eq_ci, has_token, has_token_exec};
use crate::html::{select_attrs, selected_attrs};

verus! {

/// Robots directives of one response.
#[derive(Debug, Clone, Copy, PartialEq, Eq, Structural)]
pub struct RobotsMetaDirectives {
    /// The page must not be indexed.
    pub noindex: bool,
    /// The links of the page must not be followed.
    pub nofollow: bool,
}

impl RobotsMetaDirectives {
    /// No directive set.
    pub fn permissive() -> (r: Self)
        ensures
            !r.noindex && !r.nofollow,
    {
        RobotsMetaDirectives { noindex: false, nofollow: false }
    }

    /// The most restrictive combination of two sets of directives.
    pub fn merge(self, other: Self) -> (r: Self)
        ensures
            r.noindex == (self.noindex || other.noindex),
            r.nofollow == (self.nofollow || other.nofollow),
    {
        RobotsMetaDirectives {
            noindex: self.noindex || other.noindex,
            nofollow: self.nofollow || other.nofollow,
        }
    }
}

/// The directives a directive string states: its tokens, separated by
/// commas and white space, compared ignoring ASCII case; `none` means both
/// `noindex` and `nofollow`.
pub open spec fn directives_of(s: Seq<char>) -> RobotsMetaDirectives {
    let none = has_token(s, "none"@, true);
    RobotsMetaDirectives {
        noindex: none || has_token(s, "noindex"@, true),
        nofollow: none || has_token(s, "nofollow"@, true),
    }
}

/// Parses a directive string, as found in a meta tag or in the header.
pub fn parse_robots_directive_string(content: &str) -> (r: RobotsMetaDirectives)
    ensures
        r == directives_of(content@),
{
    let s = chars_of(content);
    let none = has_token_exec(&s, &chars_of("none"), true);
    let noindex = has_token_exec(&s, &chars_of("noindex"), true);
    let nofollow = has_token_exec(&s, &chars_of("nofollow"), true);
    RobotsMetaDirectives { noindex: none || noindex, nofollow: none || nofollow }
}

/// The directives of the `X-Robots-Tag` header; none when it is absent.
pub open spec fn header_directives(h: Option<Seq<char>>) -> RobotsMetaDirectives {
    match h {
        Some(v) => directives_of(v),
        None => RobotsMetaDirectives { noindex: false, nofollow: false },
    }
}

pub fn parse_x_robots_tag(header_value: Option<&str>) -> (r: RobotsMetaDirectives)
    ensures
        r == header_directives(
            match header_value {
                Some(v) => Some(v@),
                None => None,
            },
        ),
{
    match header_value {
        Some(v) => parse_robots_directive_string(v),
        None => RobotsMetaDirectives::permissive(),
    }
}

/// The directives of the first `<meta>` whose name is `robots` (any case),
/// read from its content (empty when absent); none when there is no such tag.
pub open spec fn meta_directives(metas: Seq<(Option<Seq<char>>, Option<Seq<char>>)>) -> RobotsMetaDirectives
    decreases metas.len(),
{
    if metas.len() == 0 {
        RobotsMetaDirectives { noindex: false, nofollow: false }
    } else if metas[0].0 matches Some(n) && eq_ci(n, "robots"@) {
        directives_of(
            match metas[0].1 {
                Some(c) => c,
                None => Seq::<char>::empty(),
            },
        )
    } else {
        meta_directives(metas.drop_first())
    }
}

/// The (name, content) attributes of the `<meta name>` tags of `html`.
pub open spec fn meta_tags_of(html: Seq<char>) -> Seq<(Option<Seq<char>>, Option<Seq<char>>)> {
    selected_attrs(html, "meta[name]"@, "name"@, "content"@)
}

/// Directives stated by the robots meta tag of an HTML document.
pub fn extract_robots_meta_directives(html: &str) -> (r: RobotsMetaDirectives)
    ensures
        r == meta_directives(meta_tags_of(html@)),
{
    let metas = select_attrs(html, "meta[name]", "name", "content");
    let robots = chars_of("robots");
    let mut i: usize = 0;
    proof {
        assert(meta_tags_of(html@).skip(0) =~= meta_tags_of(html@));
    }
    while i < metas.len()
        invariant
            0 <= i <= metas.len(),
            robots@ == "robots"@,
            metas@.map_values(|p: (Option<String>, Option<String>)| crate::html::pair_view(p))
                == meta_tags_of(html@),
            meta_directives(meta_tags_of(html@)) == meta_directives(
                meta_tags_of(html@).skip(i as int),
            ),
        decreases metas.len() - i,
    {
        let ghost tags = meta_tags_of(html@);
        proof {
            assert(tags.skip(i as int).drop_first() =~= tags.skip(i as int + 1));
            assert(tags.skip(i as int)[0] == tags[i as int]);
            assert(tags[i as int] == crate::html::pair_view(metas@[i as int]));
        }
        let (name, content) = &metas[i];
        if let Some(n) = name {
            let nc = chars_of(n.as_str());
            if nc.len() == robots.len() && crate::text::eq_ci_range(&nc, 0, nc.len(), &robots) {
                proof {
                    assert(nc@ == n@);
                    assert(nc@.subrange(0, nc@.len() as int) =~= nc@);
                    assert(eq_ci(n@, "robots"@));
                    reveal_strlit("");
                    let t = meta_tags_of(html@).skip(i as int);
                    assert(t.len() > 0);
                    assert(t[0].0 == Some(n@));
                    assert(meta_directives(t) == directives_of(
                        match t[0].1 {
                            Some(c) => c,
                            None => Seq::<char>::empty(),
                        },
                    ));
                    assert(""@ =~= Seq::<char>::empty());
                }
                return match content {
                    Some(c) => parse_robots_directive_string(c.as_str()),
                    None => parse_robots_directive_string(""),
                };
            }
        }
        i = i + 1;
    }
    proof {
        assert(meta_tags_of(html@).skip(i as int).len() == 0);
    }
    RobotsMetaDirectives::permissive()
}

/// The directives in force for a response: those of its meta tag and those of
/// its `X-Robots-Tag` header together.
pub fn get_robots_directives(html: &str, x_robots_tag: Option<&str>) -> (r: RobotsMetaDirectives)
    ensures
        ({
            let m = meta_directives(meta_tags_of(html@));
            let h = header_directives(
                match x_robots_tag {
                    Some(v) => Some(v@),
                    None => None,
                },
            );
            r.noindex == (m.noindex || h.noindex) && r.nofollow == (m.nofollow || h.nofollow)
        }),
{
    let meta = extract_robots_meta_directives(html);
    let header = parse_x_robots_tag(x_robots_tag);
    meta.merge(header)
}

} // verus!

//! Configuration records: a host with its options, comments and tag.

use vstd::prelude::*;

verus! {

/// One host section of an SSH configuration: the host pattern, its options
/// as key/value pairs in the order written (duplicates kept), the comment
/// lines gathered for it, and the tag of the group it belongs to.
#[derive(Debug, Clone)]
pub struct SshConfigEntry {
    pub host: String,
    pub options: Vec<(String, String)>,
    pub comments: Vec<String>,
    pub tag: Option<String>,
}

/// Typed form of the options that the browser knows by name.
#[derive(Debug, Clone)]
pub enum SshOption {
    HostName(String),
    User(String),
    Port(u16),
    IdentityFile(String),
}

/// The text of the option lines of `display`, one line per option.
pub open spec fn option_lines(opts: Seq<(String, String)>) -> Seq<char>
    decreases opts.len(),
{
    if opts.len() == 0 {
        Seq::empty()
    } else {
        option_lines(opts.drop_last()) + "  "@ + opts.last().0@ + " => "@ + opts.last().1@
            + "\n"@
    }
}

/// The text of the comment lines of `display`, one line per comment.
pub open spec fn comment_lines(comments: Seq<String>) -> Seq<char>
    decreases comments.len(),
{
    if comments.len() == 0 {
        Seq::empty()
    } else {
        comment_lines(comments.drop_last()) + "  // "@ + comments.last()@ + "\n"@
    }
}

/// The text of the tag line of `display`, empty without a tag.
pub open spec fn tag_line(tag: Option<String>) -> Seq<char> {
    match tag {
        Some(t) => "  >> "@ + t@ + "\n"@,
        None => Seq::empty(),
    }
}

/// The multi-line text form of an entry.
pub open spec fn display_text(e: SshConfigEntry) -> Seq<char> {
    "Host: "@ + e.host@ + "\n"@ + option_lines(e.options@) + comment_lines(e.comments@)
        + tag_line(e.tag)
}

/// A pair of strings as a pair of character sequences.
pub open spec fn pair_view(p: (String, String)) -> (Seq<char>, Seq<char>) {
    (p.0@, p.1@)
}

/// The rows of the detail table of an entry: `Host` with the host, one row
/// per option with its key and value, `Comment` with each comment, and
/// `Tag` with the tag when there is one.
pub open spec fn popup_rows_spec(e: SshConfigEntry) -> Seq<(Seq<char>, Seq<char>)> {
    seq![("Host"@, e.host@)] + e.options@.map_values(|p: (String, String)| pair_view(p))
        + e.comments@.map_values(|c: String| ("Comment"@, c@)) + match e.tag {
        Some(t) => seq![("Tag"@, t@)],
        None => Seq::empty(),
    }
}

impl SshConfigEntry {
    /// An entry for `host` with no options, comments or tag.
    pub fn new(host: String) -> (r: SshConfigEntry)
        ensures
            r.host@ == host@,
            r.options@.len() == 0,
            r.comments@.len() == 0,
            r.tag is None,
    {
        SshConfigEntry { host, options: Vec::new(), comments: Vec::new(), tag: None }
    }

    /// Appends the option `key value` after the existing ones.
    pub fn add_option(&mut self, key: String, value: String)
        ensures
            final(self).options@ == old(self).options@.push((key, value)),
            final(self).host == old(self).host,
            final(self).comments == old(self).comments,
            final(self).tag == old(self).tag,
    {
        self.options.push((key, value));
    }

    /// Appends a comment line after the existing ones.
    pub fn add_comment(&mut self, comment: String)
        ensures
            final(self).comments@ == old(self).comments@.push(comment),
            final(self).host == old(self).host,
            final(self).options == old(self).options,
            final(self).tag == old(self).tag,
    {
        self.comments.push(comment);
    }

    /// Sets the tag, replacing any previous one.
    pub fn set_tag(&mut self, tag: String)
        ensures
            final(self).tag == Some(tag),
            final(self).host == old(self).host,
            final(self).options == old(self).options,
            final(self).comments == old(self).comments,
    {
        self.tag = Some(tag);
    }

    /// The entry as text: a `Host: ` line, then one `  key => value` line per
    /// option, one `  // comment` line per comment and, with a tag, a
    /// `  >> tag` line; every line ends with a newline.
    pub fn display(&self) -> (r: String)
        ensures
            r@ == display_text(*self),
    {
        let mut result = String::new();
        result.append("Host: ");
        result.append(self.host.as_str());
        result.append("\n");
        let mut i: usize = 0;
        while i < self.options.len()
            invariant
                i <= self.options@.len(),
                result@ == "Host: "@ + self.host@ + "\n"@ + option_lines(
                    self.options@.subrange(0, i as int),
                ),
            decreases self.options@.len() - i,
        {
            let (key, value) = &self.options[i];
            result.append("  ");
            result.append(key.as_str());
            result.append(" => ");
            result.append(value.as_str());
            result.append("\n");
            assert(self.options@.subrange(0, i + 1).drop_last() == self.options@.subrange(
                0,
                i as int,
            ));
            i = i + 1;
        }
        assert(self.options@.subrange(0, i as int) == self.options@);
        let mut j: usize = 0;
        while j < self.comments.len()
            invariant
                j <= self.comments@.len(),
                result@ == "Host: "@ + self.host@ + "\n"@ + option_lines(self.options@)
                    + comment_lines(self.comments@.subrange(0, j as int)),
            decreases self.comments@.len() - j,
        {
            result.append("  // ");
            result.append(self.comments[j].as_str());
            result.append("\n");
            assert(self.comments@.subrange(0, j + 1).drop_last() == self.comments@.subrange(
                0,
                j as int,
            ));
            j = j + 1;
        }
        assert(self.comments@.subrange(0, j as int) == self.comments@);
        if let Some(tag) = &self.tag {
            result.append("  >> ");
            result.append(tag.as_str());
            result.append("\n");
        }
        result
    }
    /// The rows of the entry's detail table, label first.
    pub fn popup_rows(&self) -> (r: Vec<(String, String)>)
        ensures
            r@.map_values(|p: (String, String)| pair_view(p)) == popup_rows_spec(*self),
    {
        let mut r: Vec<(String, String)> = Vec::new();
        r.push((String::from_str("Host"), self.host.clone()));
        let ghost head = seq![("Host"@, self.host@)];
        assert(r@.map_values(|p: (String, String)| pair_view(p)) =~= head);
        let mut i: usize = 0;
        while i < self.options.len()
            invariant
                i <= self.options@.len(),
                head == seq![("Host"@, self.host@)],
                r@.map_values(|p: (String, String)| pair_view(p)) == head + self.options@.subrange(
                    0,
                    i as int,
                ).map_values(|p: (String, String)| pair_view(p)),
            decreases self.options@.len() - i,
        {
            let (k, v) = &self.options[i];
            let ghost before = r@;
            r.push((k.clone(), v.clone()));
            assert(r@ == before.push(self.options@[i as int]));
            assert(r@.map_values(|p: (String, String)| pair_view(p)) =~= before.map_values(
                |p: (String, String)| pair_view(p),
            ).push(pair_view(self.options@[i as int])));
            assert(self.options@.subrange(0, i + 1).map_values(|p: (String, String)| pair_view(p))
                =~= self.options@.subrange(0, i as int).map_values(|p: (String, String)| pair_view(p)).push(
                pair_view(self.options@[i as int]),
            ));
            assert(r@.map_values(|p: (String, String)| pair_view(p)) =~= head
                + self.options@.subrange(0, i + 1).map_values(|p: (String, String)| pair_view(p)));
            i = i + 1;
        }
        assert(self.options@.subrange(0, i as int) == self.options@);
        let ghost mid = head + self.options@.map_values(|p: (String, String)| pair_view(p));
        let mut j: usize = 0;
        while j < self.comments.len()
            invariant
                j <= self.comments@.len(),
                mid == seq![("Host"@, self.host@)] + self.options@.map_values(
                    |p: (String, String)| pair_view(p),
                ),
                r@.map_values(|p: (String, String)| pair_view(p)) == mid + self.comments@.subrange(
                    0,
                    j as int,
                ).map_values(|c: String| ("Comment"@, c@)),
            decreases self.comments@.len() - j,
        {
            let ghost before = r@;
            let label = String::from_str("Comment");
            r.push((label, self.comments[j].clone()));
            assert(r@.map_values(|p: (String, String)| pair_view(p)) =~= before.map_values(
                |p: (String, String)| pair_view(p),
            ).push(("Comment"@, self.comments@[j as int]@)));
            assert(self.comments@.subrange(0, j + 1).map_values(|c: String| ("Comment"@, c@))
                =~= self.comments@.subrange(0, j as int).map_values(|c: String| ("Comment"@, c@)).push(
                ("Comment"@, self.comments@[j as int]@),
            ));
            assert(r@.map_values(|p: (String, String)| pair_view(p)) =~= mid
                + self.comments@.subrange(0, j + 1).map_values(|c: String| ("Comment"@, c@)));
            j = j + 1;
        }
        assert(self.comments@.subrange(0, j as int) == self.comments@);
        if let Some(t) = &self.tag {
            r.push((String::from_str("Tag"), t.clone()));
        }
        assert(r@.map_values(|p: (String, String)| pair_view(p)) =~= popup_rows_spec(*self));
        r
    }
}

} // verus!

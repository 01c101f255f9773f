//! Parsing of SSH configuration text into entries: each line is classified
//! by a regular expression, then the lines are folded into host sections.

use vstd::prelude::*;
use crate::entry::SshConfigEntry;

verus! {

/// A tag line: `# --- name ---`, the name in group 1.
pub const TAG_PATTERN: &'static str = "^\\s*# -+ ([^-\\n]+) -+\\s*$";

/// Any comment line.
pub const COMMENT_PATTERN: &'static str = "^\\s*#.*$";

/// A section header: `Host pattern`, the pattern in group 1.
pub const SECTION_PATTERN: &'static str = "^\\s*Host\\s+(.+?)\\s*$";

/// An option: a key, blanks, a value; key in group 1, value in group 2.
pub const OPTION_PATTERN: &'static str = "^\\s*(\\S+)\\s+(.+?)\\s*$";

/// What `regex::Regex::captures` gives for `pattern` on `text`: `None`
/// when the pattern does not match (or does not compile); otherwise, for
/// each group of the leftmost-first match, group 0 first, the text it
/// matched, or `None` where the group took no part.
pub uninterp spec fn regex_captures(pattern: Seq<char>, text: Seq<char>) -> Option<Seq<Option<Seq<char>>>>;

/// What `str::trim` leaves of a text: the text without its leading and
/// trailing white space.
pub uninterp spec fn trimmed(s: Seq<char>) -> Seq<char>;

/// Relies on `regex::Regex::new` to compile `pattern` and on
/// `regex::Regex::captures` to match it against `text`; each group is
/// handed back as its own string.
#[verifier::external_body]
fn captures_in(pattern: &str, text: &str) -> (r: Option<Vec<Option<String>>>)
    ensures
        r is None <==> regex_captures(pattern@, text@) is None,
        r matches Some(groups) ==> groups@.map_values(|g: Option<String>| opt_view(g))
            == regex_captures(pattern@, text@)->0,
{
    let re = regex::Regex::new(pattern).ok()?;
    let caps = re.captures(text)?;
    Some(caps.iter().map(|m| m.map(|m| m.as_str().to_string())).collect())
}

/// Relies on `str::trim`: `s` without leading and trailing white space.
#[verifier::external_body]
fn trim_str(s: &str) -> (r: String)
    ensures
        r@ == trimmed(s@),
{
    s.trim().to_string()
}

/// An optional string as an optional character sequence.
pub open spec fn opt_view(o: Option<String>) -> Option<Seq<char>> {
    match o {
        Some(s) => Some(s@),
        None => None,
    }
}

/// Group `i` of a capture result, if the pattern matched and the group
/// took part.
pub open spec fn group(caps: Option<Seq<Option<Seq<char>>>>, i: int) -> Option<Seq<char>> {
    match caps {
        Some(gs) => if 0 <= i < gs.len() {
            gs[i]
        } else {
            None
        },
        None => None,
    }
}

/// What a line of configuration text is.
#[derive(Debug)]
pub enum LineKind {
    Tag(String),
    Comment(String),
    Section(String),
    Setting(String, String),
    Other,
}

/// The mathematical value of a `LineKind`.
pub enum LineModel {
    Tag(Seq<char>),
    Comment(Seq<char>),
    Section(Seq<char>),
    Setting(Seq<char>, Seq<char>),
    Other,
}

impl View for LineKind {
    type V = LineModel;

    open spec fn view(&self) -> LineModel {
        match self {
            LineKind::Tag(t) => LineModel::Tag(t@),
            LineKind::Comment(c) => LineModel::Comment(c@),
            LineKind::Section(h) => LineModel::Section(h@),
            LineKind::Setting(k, v) => LineModel::Setting(k@, v@),
            LineKind::Other => LineModel::Other,
        }
    }
}

/// How a line is read, after trimming it: a tag line gives its trimmed
/// name; any other comment is kept whole; a `Host` line gives its pattern;
/// a key and a value give an option; anything else is ignored.
pub open spec fn classify_spec(line: Seq<char>) -> LineModel {
    let t = trimmed(line);
    let tag = group(regex_captures(TAG_PATTERN@, t), 1);
    let section = regex_captures(SECTION_PATTERN@, t);
    let option = regex_captures(OPTION_PATTERN@, t);
    if tag is Some {
        LineModel::Tag(trimmed(tag->0))
    } else if regex_captures(COMMENT_PATTERN@, t) is Some {
        LineModel::Comment(t)
    } else if group(section, 1) is Some {
        LineModel::Section(group(section, 1)->0)
    } else if group(option, 1) is Some && group(option, 2) is Some {
        LineModel::Setting(group(option, 1)->0, group(option, 2)->0)
    } else {
        LineModel::Other
    }
}

/// Group `i` of `caps`, as its own string.
fn group_of(caps: &Option<Vec<Option<String>>>, i: usize) -> (r: Option<String>)
    ensures
        caps is None ==> r is None,
        caps matches Some(gs) ==> opt_view(r) == (if i < gs@.len() {
            opt_view(gs@[i as int])
        } else {
            None
        }),
{
    match caps {
        Some(gs) => if i < gs.len() {
            match &gs[i] {
                Some(s) => Some(s.clone()),
                None => None,
            }
        } else {
            None
        },
        None => None,
    }
}

/// Reads one line of configuration text.
pub fn classify_line(line: &str) -> (r: LineKind)
    ensures
        r@ == classify_spec(line@),
{
    let t = trim_str(line);
    let ts = t.as_str();
    let tag_caps = captures_in(TAG_PATTERN, ts);
    let tag = group_of(&tag_caps, 1);
    if let Some(name) = tag {
        return LineKind::Tag(trim_str(name.as_str()));
    }
    if captures_in(COMMENT_PATTERN, ts).is_some() {
        return LineKind::Comment(t);
    }
    let section_caps = captures_in(SECTION_PATTERN, ts);
    let host = group_of(&section_caps, 1);
    if let Some(h) = host {
        return LineKind::Section(h);
    }
    let option_caps = captures_in(OPTION_PATTERN, ts);
    let key = group_of(&option_caps, 1);
    let value = group_of(&option_caps, 2);
    match (key, value) {
        (Some(k), Some(v)) => LineKind::Setting(k, v),
        _ => LineKind::Other,
    }
}

/// The mathematical value of an entry: its strings as characters.
pub struct EntryModel {
    pub host: Seq<char>,
    pub options: Seq<(Seq<char>, Seq<char>)>,
    pub comments: Seq<Seq<char>>,
    pub tag: Option<Seq<char>>,
}

/// An entry as an `EntryModel`.
pub open spec fn entry_model(e: SshConfigEntry) -> EntryModel {
    EntryModel {
        host: e.host@,
        options: e.options@.map_values(|p: (String, String)| (p.0@, p.1@)),
        comments: e.comments@.map_values(|c: String| c@),
        tag: opt_view(e.tag),
    }
}

/// Where a fold over the lines stands: the entries closed so far, the host
/// of the open section with the options and comments gathered since it
/// was closed, the tag last read and the tag in force before it.
pub struct ParseModel {
    pub entries: Seq<EntryModel>,
    pub host: Option<Seq<char>>,
    pub options: Seq<(Seq<char>, Seq<char>)>,
    pub comments: Seq<Seq<char>>,
    pub current_tag: Option<Seq<char>>,
    pub previous_tag: Option<Seq<char>>,
}

/// One line folded in. A tag line only notes the new tag. Any other line
/// first does its part (a comment or an option is gathered; a `Host` line
/// closes the open section, if any, with the tag in force, and opens its
/// own), and then the tag last read comes into force.
pub open spec fn parse_step(st: ParseModel, line: LineModel) -> ParseModel {
    match line {
        LineModel::Tag(t) => ParseModel { current_tag: Some(t), ..st },
        _ => {
            let done = match line {
                LineModel::Comment(c) => ParseModel { comments: st.comments.push(c), ..st },
                LineModel::Section(h) => match st.host {
                    Some(open) => ParseModel {
                        entries: st.entries.push(
                            EntryModel {
                                host: open,
                                options: st.options,
                                comments: st.comments,
                                tag: st.previous_tag,
                            },
                        ),
                        host: Some(h),
                        options: Seq::empty(),
                        comments: Seq::empty(),
                        ..st
                    },
                    None => ParseModel { host: Some(h), ..st },
                },
                LineModel::Setting(k, v) => ParseModel { options: st.options.push((k, v)), ..st },
                _ => st,
            };
            ParseModel { previous_tag: done.current_tag, ..done }
        },
    }
}

/// Nothing read yet.
pub open spec fn parse_start() -> ParseModel {
    ParseModel {
        entries: Seq::empty(),
        host: None,
        options: Seq::empty(),
        comments: Seq::empty(),
        current_tag: None,
        previous_tag: None,
    }
}

/// The lines folded in, in order.
pub open spec fn parse_fold(lines: Seq<LineModel>) -> ParseModel
    decreases lines.len(),
{
    if lines.len() == 0 {
        parse_start()
    } else {
        parse_step(parse_fold(lines.drop_last()), lines.last())
    }
}

/// The entries after the last line: the open section, if any, is closed
/// with the tag in force.
pub open spec fn parse_finish(st: ParseModel) -> Seq<EntryModel> {
    match st.host {
        Some(h) => st.entries.push(
            EntryModel { host: h, options: st.options, comments: st.comments, tag: st.previous_tag },
        ),
        None => st.entries,
    }
}

/// The entries that classified lines make.
pub open spec fn assemble_spec(lines: Seq<LineModel>) -> Seq<EntryModel> {
    parse_finish(parse_fold(lines))
}

/// The entries that lines of configuration text make.
pub open spec fn parse_spec(lines: Seq<String>) -> Seq<EntryModel> {
    assemble_spec(lines.map_values(|l: String| classify_spec(l@)))
}

/// A copy of an optional string.
fn clone_opt(o: &Option<String>) -> (r: Option<String>)
    ensures
        opt_view(r) == opt_view(*o),
{
    match o {
        Some(s) => Some(s.clone()),
        None => None,
    }
}

/// The views of a list of entries.
pub open spec fn entries_model(v: Seq<SshConfigEntry>) -> Seq<EntryModel> {
    v.map_values(|e: SshConfigEntry| entry_model(e))
}

/// Folds classified lines into entries: each `Host` line opens an entry
/// that takes the options and comments read until the next one, and the
/// tag that was in force when the section was closed.
pub fn assemble_entries(lines: &[LineKind]) -> (r: Vec<SshConfigEntry>)
    ensures
        entries_model(r@) == assemble_spec(lines@.map_values(|l: LineKind| l@)),
{
    let ghost models = lines@.map_values(|l: LineKind| l@);
    let mut entries: Vec<SshConfigEntry> = Vec::new();
    let mut host: Option<String> = None;
    let mut options: Vec<(String, String)> = Vec::new();
    let mut comments: Vec<String> = Vec::new();
    let mut current_tag: Option<String> = None;
    let mut previous_tag: Option<String> = None;
    let mut i: usize = 0;
    while i < lines.len()
        invariant
            i <= lines@.len(),
            models == lines@.map_values(|l: LineKind| l@),
            ({
                let st = parse_fold(models.take(i as int));
                &&& entries_model(entries@) == st.entries
                &&& opt_view(host) == st.host
                &&& options@.map_values(|p: (String, String)| (p.0@, p.1@)) == st.options
                &&& comments@.map_values(|c: String| c@) == st.comments
                &&& opt_view(current_tag) == st.current_tag
                &&& opt_view(previous_tag) == st.previous_tag
            }),
        decreases lines@.len() - i,
    {
        let ghost st = parse_fold(models.take(i as int));
        assert(models.take(i + 1).drop_last() =~= models.take(i as int));
        assert(models.take(i + 1).last() == lines@[i as int]@);
        match &lines[i] {
            LineKind::Tag(t) => {
                current_tag = Some(t.clone());
            },
            line => {
                match line {
                    LineKind::Comment(c) => {
                        let ghost before = comments@;
                        comments.push(c.clone());
                        assert(comments@.map_values(|c: String| c@) =~= before.map_values(
                            |c: String| c@,
                        ).push(c@));
                    },
                    LineKind::Section(h) => {
                        match host {
                            Some(open) => {
                                let ghost em = EntryModel {
                                    host: open@,
                                    options: st.options,
                                    comments: st.comments,
                                    tag: st.previous_tag,
                                };
                                let entry = SshConfigEntry {
                                    host: open,
                                    options,
                                    comments,
                                    tag: clone_opt(&previous_tag),
                                };
                                assert(entry_model(entry) == em);
                                let ghost before = entries@;
                                entries.push(entry);
                                assert(entries_model(entries@) =~= entries_model(before).push(em));
                                options = Vec::new();
                                comments = Vec::new();
                                assert(options@.map_values(|p: (String, String)| (p.0@, p.1@))
                                    =~= Seq::<(Seq<char>, Seq<char>)>::empty());
                                assert(comments@.map_values(|c: String| c@) =~= Seq::<
                                    Seq<char>,
                                >::empty());
                            },
                            None => {},
                        }
                        host = Some(h.clone());
                    },
                    LineKind::Setting(k, v) => {
                        let ghost before = options@;
                        options.push((k.clone(), v.clone()));
                        assert(options@.map_values(|p: (String, String)| (p.0@, p.1@))
                            =~= before.map_values(|p: (String, String)| (p.0@, p.1@)).push(
                            (k@, v@),
                        ));
                    },
                    _ => {},
                }
                previous_tag = clone_opt(&current_tag);
            },
        }
        i = i + 1;
    }
    assert(models.take(i as int) =~= models);
    match host {
        Some(h) => {
            let ghost st = parse_fold(models);
            let ghost em = EntryModel {
                host: h@,
                options: st.options,
                comments: st.comments,
                tag: st.previous_tag,
            };
            let entry = SshConfigEntry { host: h, options, comments, tag: previous_tag };
            let ghost before = entries@;
            entries.push(entry);
            assert(entries_model(entries@) =~= entries_model(before).push(em));
        },
        None => {},
    }
    entries
}

/// Parses configuration text given as its lines, in order.
pub fn parse_ssh_config(lines: &[String]) -> (r: Vec<SshConfigEntry>)
    ensures
        entries_model(r@) == parse_spec(lines@),
{
    let mut kinds: Vec<LineKind> = Vec::new();
    let mut i: usize = 0;
    while i < lines.len()
        invariant
            i <= lines@.len(),
            kinds@.map_values(|l: LineKind| l@) == lines@.take(i as int).map_values(
                |l: String| classify_spec(l@),
            ),
        decreases lines@.len() - i,
    {
        let ghost before = kinds@;
        let k = classify_line(lines[i].as_str());
        kinds.push(k);
        assert(kinds@.map_values(|l: LineKind| l@) =~= before.map_values(|l: LineKind| l@).push(
            classify_spec(lines@[i as int]@),
        ));
        assert(lines@.take(i + 1).map_values(|l: String| classify_spec(l@)) =~= lines@.take(
            i as int,
        ).map_values(|l: String| classify_spec(l@)).push(classify_spec(lines@[i as int]@)));
        i = i + 1;
    }
    assert(lines@.take(i as int) =~= lines@);
    assemble_entries(kinds.as_slice())
}

} // verus!

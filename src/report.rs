use vstd::prelude::*;

verus! {

/// A YAML value as the report reads it.
pub enum YamlNode {
    /// A string scalar.
    Text(String),
    /// A sequence.
    List(Vec<YamlNode>),
    /// A mapping, its entries in document order.
    Dict(Vec<(YamlNode, YamlNode)>),
    /// A value carrying a `!tag`; the tag itself plays no part in a report.
    Tagged(Box<YamlNode>),
    /// Any other scalar: null, a boolean or a number.
    Scalar,
}

/// Why a document could not be turned into a report.
#[derive(Debug)]
pub enum ReportError {
    /// The text is not well-formed YAML; the parser's explanation.
    Parse(String),
    /// The document is well-formed but its root is not a mapping.
    RootNotMapping,
    /// A top-level key is not a string.
    InvalidSectionName,
    /// A key inside a section is not a string.
    InvalidSubsectionName,
}

impl ReportError {
    /// Whether the document was well-formed but had the wrong shape.
    pub fn is_structure_error(&self) -> (r: bool)
        ensures
            r == !(*self is Parse),
    {
        match self {
            ReportError::Parse(_) => false,
            _ => true,
        }
    }
}

/// The node under any number of tags.
pub open spec fn untagged(n: YamlNode) -> YamlNode
    decreases n,
{
    match n {
        YamlNode::Tagged(inner) => untagged(*inner),
        _ => n,
    }
}

/// The string a node holds, looking through tags.
pub open spec fn text_of(n: YamlNode) -> Option<Seq<char>> {
    match untagged(n) {
        YamlNode::Text(s) => Some(s@),
        _ => None,
    }
}

/// One bullet line per string item; other items add nothing.
pub open spec fn note_lines(items: Seq<YamlNode>) -> Seq<char>
    decreases items.len(),
{
    if items.len() == 0 {
        Seq::empty()
    } else {
        note_lines(items.drop_last()) + match text_of(items.last()) {
            Some(s) => "- "@ + s + "\n"@,
            None => Seq::empty(),
        }
    }
}

/// The lines that one entry of a section contributes, or `None` when its key
/// is not a string. `Note` lists bullets, `Rating` gives a rating line, and
/// any other key adds nothing.
pub open spec fn entry_lines(key: YamlNode, value: YamlNode) -> Option<Seq<char>> {
    match text_of(key) {
        None => None,
        Some(k) => Some(
            if k == "Note"@ {
                match untagged(value) {
                    YamlNode::List(items) => note_lines(items@),
                    _ => Seq::empty(),
                }
            } else if k == "Rating"@ {
                match text_of(value) {
                    Some(r) => "- Rating: "@ + r + "\n"@,
                    None => Seq::empty(),
                }
            } else {
                Seq::empty()
            },
        ),
    }
}

/// The lines of all entries of a section, or `None` when a key is not a string.
pub open spec fn section_lines(entries: Seq<(YamlNode, YamlNode)>) -> Option<Seq<char>>
    decreases entries.len(),
{
    if entries.len() == 0 {
        Some(Seq::empty())
    } else {
        match (section_lines(entries.drop_last()), entry_lines(entries.last().0, entries.last().1)) {
            (Some(a), Some(b)) => Some(a + b),
            _ => None,
        }
    }
}

/// A section: its heading, the lines of its entries when it is a mapping, and
/// a blank line.
pub open spec fn section_block(name: Seq<char>, value: YamlNode) -> Option<Seq<char>> {
    let body = match untagged(value) {
        YamlNode::Dict(entries) => section_lines(entries@),
        _ => Some(Seq::empty()),
    };
    match body {
        Some(b) => Some("# "@ + name + "\n"@ + b + "\n"@),
        None => None,
    }
}

/// All sections but `Overall`, in document order, or the first error met.
pub open spec fn sections_text(entries: Seq<(YamlNode, YamlNode)>) -> Result<Seq<char>, ReportError>
    decreases entries.len(),
{
    if entries.len() == 0 {
        Ok(Seq::empty())
    } else {
        match sections_text(entries.drop_last()) {
            Err(e) => Err(e),
            Ok(a) => match text_of(entries.last().0) {
                None => Err(ReportError::InvalidSectionName),
                Some(name) => if name == "Overall"@ {
                    Ok(a)
                } else {
                    match section_block(name, entries.last().1) {
                        Some(b) => Ok(a + b),
                        None => Err(ReportError::InvalidSubsectionName),
                    }
                },
            },
        }
    }
}

/// A key that is the plain string `Overall`.
pub open spec fn is_overall_key(k: YamlNode) -> bool {
    k matches YamlNode::Text(s) && s@ == "Overall"@
}

/// The value of the first `Overall` entry, if any.
pub open spec fn overall_value(entries: Seq<(YamlNode, YamlNode)>) -> Option<YamlNode>
    decreases entries.len(),
{
    if entries.len() == 0 {
        None
    } else {
        match overall_value(entries.drop_last()) {
            Some(v) => Some(v),
            None => if is_overall_key(entries.last().0) {
                Some(entries.last().1)
            } else {
                None
            },
        }
    }
}

/// The closing `Overall` block, present when `Overall` holds a string.
pub open spec fn overall_text(entries: Seq<(YamlNode, YamlNode)>) -> Seq<char> {
    match overall_value(entries) {
        Some(v) => match text_of(v) {
            Some(s) => "# Overall\nDifficulty "@ + s + "\n"@,
            None => Seq::empty(),
        },
        None => Seq::empty(),
    }
}

/// The report of a parsed document.
pub open spec fn report_of(root: YamlNode) -> Result<Seq<char>, ReportError> {
    match untagged(root) {
        YamlNode::Dict(entries) => match sections_text(entries@) {
            Ok(t) => Ok(t + overall_text(entries@)),
            Err(e) => Err(e),
        },
        _ => Err(ReportError::RootNotMapping),
    }
}

/// A report result, with the text seen as characters.
pub open spec fn report_outcome(r: Result<String, ReportError>) -> Result<Seq<char>, ReportError> {
    match r {
        Ok(s) => Ok(s@),
        Err(e) => Err(e),
    }
}

fn untag(n: &YamlNode) -> (r: &YamlNode)
    ensures
        *r == untagged(*n),
    decreases n,
{
    match n {
        YamlNode::Tagged(inner) => untag(inner),
        _ => n,
    }
}

fn node_text(n: &YamlNode) -> (r: Option<&String>)
    ensures
        match r {
            Some(s) => text_of(*n) == Some(s@),
            None => text_of(*n) is None,
        },
{
    match untag(n) {
        YamlNode::Text(s) => Some(s),
        _ => None,
    }
}

fn text_is(s: &String, word: &str) -> (r: bool)
    ensures
        r == (s@ == word@),
{
    let w = String::from_str(word);
    *s == w
}

fn push_notes(out: &mut String, items: &Vec<YamlNode>)
    ensures
        final(out)@ == old(out)@ + note_lines(items@),
{
    let mut i: usize = 0;
    while i < items.len()
        invariant
            i <= items.len(),
            out@ == old(out)@ + note_lines(items@.take(i as int)),
        decreases items.len() - i,
    {
        assert(items@.take(i as int + 1).drop_last() =~= items@.take(i as int));
        match node_text(&items[i]) {
            Some(s) => {
                out.append("- ");
                out.append(s.as_str());
                out.append("\n");
            },
            None => {},
        }
        i = i + 1;
    }
    assert(items@.take(i as int) =~= items@);
}

fn push_entry(out: &mut String, key: &YamlNode, value: &YamlNode) -> (ok: bool)
    ensures
        ok == entry_lines(*key, *value) is Some,
        ok ==> final(out)@ == old(out)@ + entry_lines(*key, *value)->Some_0,
{
    match node_text(key) {
        None => false,
        Some(k) => {
            if text_is(k, "Note") {
                match untag(value) {
                    YamlNode::List(items) => push_notes(out, items),
                    _ => {},
                }
            } else if text_is(k, "Rating") {
                match node_text(value) {
                    Some(r) => {
                        out.append("- Rating: ");
                        out.append(r.as_str());
                        out.append("\n");
                    },
                    None => {},
                }
            }
            true
        },
    }
}

fn push_section_entries(out: &mut String, entries: &Vec<(YamlNode, YamlNode)>) -> (ok: bool)
    ensures
        ok == section_lines(entries@) is Some,
        ok ==> final(out)@ == old(out)@ + section_lines(entries@)->Some_0,
{
    let mut i: usize = 0;
    while i < entries.len()
        invariant
            i <= entries.len(),
            section_lines(entries@.take(i as int)) is Some,
            out@ == old(out)@ + section_lines(entries@.take(i as int))->Some_0,
        decreases entries.len() - i,
    {
        assert(entries@.take(i as int + 1).drop_last() =~= entries@.take(i as int));
        if !push_entry(out, &entries[i].0, &entries[i].1) {
            proof {
                lemma_section_lines_fails_later(entries@, i as int + 1);
            }
            return false;
        }
        i = i + 1;
    }
    assert(entries@.take(i as int) =~= entries@);
    true
}

proof fn lemma_section_lines_fails_later(entries: Seq<(YamlNode, YamlNode)>, j: int)
    requires
        0 <= j <= entries.len(),
        section_lines(entries.take(j)) is None,
    ensures
        section_lines(entries) is None,
    decreases entries.len() - j,
{
    if j < entries.len() {
        assert(entries.take(j + 1).drop_last() =~= entries.take(j));
        lemma_section_lines_fails_later(entries, j + 1);
    } else {
        assert(entries.take(j) =~= entries);
    }
}

proof fn lemma_sections_text_fails_later(
    entries: Seq<(YamlNode, YamlNode)>,
    j: int,
    e: ReportError,
)
    requires
        0 <= j <= entries.len(),
        sections_text(entries.take(j)) == Err::<Seq<char>, ReportError>(e),
    ensures
        sections_text(entries) == Err::<Seq<char>, ReportError>(e),
    decreases entries.len() - j,
{
    if j < entries.len() {
        assert(entries.take(j + 1).drop_last() =~= entries.take(j));
        lemma_sections_text_fails_later(entries, j + 1, e);
    } else {
        assert(entries.take(j) =~= entries);
    }
}

/// Appends the block of one section: its heading, the lines of its entries
/// when its value is a mapping, and a blank line.
fn push_section(out: &mut String, name: &String, value: &YamlNode) -> (ok: bool)
    ensures
        ok == section_block(name@, *value) is Some,
        ok ==> final(out)@ == old(out)@ + section_block(name@, *value)->Some_0,
{
    out.append("# ");
    out.append(name.as_str());
    out.append("\n");
    match untag(value) {
        YamlNode::Dict(entries) => {
            if !push_section_entries(out, entries) {
                return false;
            }
        },
        _ => {},
    }
    out.append("\n");
    true
}

fn find_overall(entries: &Vec<(YamlNode, YamlNode)>) -> (r: Option<&YamlNode>)
    ensures
        match r {
            Some(v) => overall_value(entries@) == Some(*v),
            None => overall_value(entries@) is None,
        },
{
    let mut i: usize = 0;
    while i < entries.len()
        invariant
            i <= entries.len(),
            overall_value(entries@.take(i as int)) is None,
        decreases entries.len() - i,
    {
        assert(entries@.take(i as int + 1).drop_last() =~= entries@.take(i as int));
        let overall = match &entries[i].0 {
            YamlNode::Text(k) => text_is(k, "Overall"),
            _ => false,
        };
        if overall {
            proof {
                lemma_overall_value_found(entries@, i as int + 1, entries@[i as int].1);
            }
            return Some(&entries[i].1);
        }
        i = i + 1;
    }
    assert(entries@.take(i as int) =~= entries@);
    None
}

proof fn lemma_overall_value_found(entries: Seq<(YamlNode, YamlNode)>, j: int, v: YamlNode)
    requires
        0 <= j <= entries.len(),
        overall_value(entries.take(j)) == Some(v),
    ensures
        overall_value(entries) == Some(v),
    decreases entries.len() - j,
{
    if j < entries.len() {
        assert(entries.take(j + 1).drop_last() =~= entries.take(j));
        lemma_overall_value_found(entries, j + 1, v);
    } else {
        assert(entries.take(j) =~= entries);
    }
}

/// Renders a parsed document as a Markdown report: one block per section in
/// document order, `Overall` held back and placed last.
pub fn render_report(root: &YamlNode) -> (r: Result<String, ReportError>)
    ensures
        report_outcome(r) == report_of(*root),
{
    let entries = match untag(root) {
        YamlNode::Dict(entries) => entries,
        _ => return Err(ReportError::RootNotMapping),
    };
    let mut out = String::new();
    let mut i: usize = 0;
    while i < entries.len()
        invariant
            i <= entries.len(),
            untagged(*root) == YamlNode::Dict(*entries),
            sections_text(entries@.take(i as int)) == Ok::<Seq<char>, ReportError>(out@),
        decreases entries.len() - i,
    {
        assert(entries@.take(i as int + 1).drop_last() =~= entries@.take(i as int));
        let name = match node_text(&entries[i].0) {
            Some(name) => name,
            None => {
                proof {
                    lemma_sections_text_fails_later(
                        entries@,
                        i as int + 1,
                        ReportError::InvalidSectionName,
                    );
                }
                return Err(ReportError::InvalidSectionName);
            },
        };
        if !text_is(name, "Overall") {
            if !push_section(&mut out, name, &entries[i].1) {
                proof {
                    lemma_sections_text_fails_later(
                        entries@,
                        i as int + 1,
                        ReportError::InvalidSubsectionName,
                    );
                }
                return Err(ReportError::InvalidSubsectionName);
            }
        }
        i = i + 1;
    }
    assert(entries@.take(i as int) =~= entries@);
    let ghost sections = out@;
    match find_overall(entries) {
        Some(v) => match node_text(v) {
            Some(s) => {
                out.append("# Overall\nDifficulty ");
                out.append(s.as_str());
                out.append("\n");
            },
            None => {},
        },
        None => {},
    }
    assert(out@ =~= sections + overall_text(entries@));
    Ok(out)
}

#[verifier::external_type_specification]
#[verifier::external_body]
pub struct ExYamlValue(serde_yaml::Value);

/// The tree that a YAML text holds, when it is well-formed.
pub uninterp spec fn parsed_yaml(text: Seq<char>) -> Option<YamlNode>;

/// Relies on `serde_yaml::from_str::<serde_yaml::Value>`: whether a text is
/// well-formed YAML, and the tree it holds, depend on the text alone. On
/// failure it hands back the parser's explanation.
#[verifier::external_body]
fn parse_yaml(text: &str) -> (r: Result<YamlNode, String>)
    ensures
        r is Ok <==> parsed_yaml(text@) is Some,
        r is Ok ==> parsed_yaml(text@) == Some(r->Ok_0),
{
    match serde_yaml::from_str::<serde_yaml::Value>(text) {
        Ok(v) => Ok(node_from_value(v)),
        Err(e) => Err(e.to_string()),
    }
}

/// Moves a `serde_yaml::Value` into a `YamlNode`, one variant for one; used by
/// `parse_yaml` only.
#[verifier::external_body]
fn node_from_value(v: serde_yaml::Value) -> YamlNode {
    match v {
        serde_yaml::Value::String(s) => YamlNode::Text(s),
        serde_yaml::Value::Sequence(items) => YamlNode::List(
            items.into_iter().map(node_from_value).collect(),
        ),
        serde_yaml::Value::Mapping(m) => YamlNode::Dict(
            m.into_iter().map(|(k, x)| (node_from_value(k), node_from_value(x))).collect(),
        ),
        serde_yaml::Value::Tagged(t) => YamlNode::Tagged(Box::new(node_from_value(t.value))),
        _ => YamlNode::Scalar,
    }
}

proof fn lemma_sections_text_no_parse_error(entries: Seq<(YamlNode, YamlNode)>)
    ensures
        sections_text(entries) is Err ==> !(sections_text(entries)->Err_0 is Parse),
    decreases entries.len(),
{
    if entries.len() > 0 {
        lemma_sections_text_no_parse_error(entries.drop_last());
    }
}

/// Parses a YAML grading document and renders it as a Markdown report.
/// Malformed YAML gives `Parse`; otherwise the result is the report of the
/// parsed tree, or its structure error.
pub fn yaml_to_markdown(yaml_text: &str) -> (r: Result<String, ReportError>)
    ensures
        parsed_yaml(yaml_text@) is None <==> (r is Err && r->Err_0 is Parse),
        parsed_yaml(yaml_text@) is Some ==> report_outcome(r) == report_of(
            parsed_yaml(yaml_text@)->Some_0,
        ),
{
    match parse_yaml(yaml_text) {
        Ok(root) => {
            proof {
                if let YamlNode::Dict(entries) = untagged(root) {
                    lemma_sections_text_no_parse_error(entries@);
                }
            }
            render_report(&root)
        },
        Err(detail) => Err(ReportError::Parse(detail)),
    }
}

/// Converting is deterministic: two results that both meet the contract of
/// `yaml_to_markdown` on one text are both parse errors, or are the same
/// report or the same structure error.
pub proof fn lemma_markdown_deterministic(
    yaml_text: Seq<char>,
    r1: Result<String, ReportError>,
    r2: Result<String, ReportError>,
)
    requires
        parsed_yaml(yaml_text) is None <==> (r1 is Err && r1->Err_0 is Parse),
        parsed_yaml(yaml_text) is Some ==> report_outcome(r1) == report_of(
            parsed_yaml(yaml_text)->Some_0,
        ),
        parsed_yaml(yaml_text) is None <==> (r2 is Err && r2->Err_0 is Parse),
        parsed_yaml(yaml_text) is Some ==> report_outcome(r2) == report_of(
            parsed_yaml(yaml_text)->Some_0,
        ),
    ensures
        (r1 is Err && r1->Err_0 is Parse) <==> (r2 is Err && r2->Err_0 is Parse),
        !(r1 is Err && r1->Err_0 is Parse) ==> report_outcome(r1) == report_outcome(r2),
        r1 is Ok ==> r2 is Ok && r1->Ok_0@ == r2->Ok_0@,
{
}

/// A `Note` whose value is not a sequence adds no bullet and is no error.
pub proof fn lemma_note_without_list_adds_nothing(key: YamlNode, value: YamlNode)
    requires
        text_of(key) == Some("Note"@),
        !(untagged(value) is List),
    ensures
        entry_lines(key, value) == Some(Seq::<char>::empty()),
{
}

/// When the root holds `Overall` with a string, a successful report ends with
/// the `Overall` block, wherever the entry stood in the document.
pub proof fn lemma_overall_comes_last(root: YamlNode, entries: Vec<(YamlNode, YamlNode)>)
    requires
        untagged(root) == YamlNode::Dict(entries),
        report_of(root) is Ok,
        overall_value(entries@) is Some,
        text_of(overall_value(entries@)->Some_0) is Some,
    ensures
        ({
            let t = report_of(root)->Ok_0;
            let block = "# Overall\nDifficulty "@ + text_of(overall_value(entries@)->Some_0)->Some_0
                + "\n"@;
            &&& block.len() <= t.len()
            &&& t.subrange(t.len() - block.len(), t.len() as int) == block
        }),
{
    let t = report_of(root)->Ok_0;
    let block = overall_text(entries@);
    assert(t.subrange(t.len() - block.len(), t.len() as int) =~= block);
}

} // verus!

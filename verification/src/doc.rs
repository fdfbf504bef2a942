//! Documentation text: from the raw lines of a comment to the help strings
//! of the parser builder.

use crate::directive::{ArgsView, MethodView};
use crate::text::{all_trimmed, join, split, strip_trailing, texts, trim, trimmed};
use vstd::prelude::*;

verus! {

/// One line as the reflow sees it: stripped of surrounding whitespace, and a
/// paragraph break where nothing is left.
pub open spec fn doc_line(raw: Seq<char>) -> Seq<char> {
    let text = trimmed(raw);
    if text.len() == 0 {
        "\n\n"@
    } else {
        text
    }
}

/// All lines as the reflow sees them.
pub open spec fn doc_lines(raw: Seq<Seq<char>>) -> Seq<Seq<char>> {
    raw.map_values(|line: Seq<char>| doc_line(line))
}

/// The lines run together with spaces, cut again at the newlines of the
/// paragraph breaks, each piece stripped and the pieces joined by newlines.
pub open spec fn merged(lines: Seq<Seq<char>>) -> Seq<char> {
    join(all_trimmed(split(join(lines, " "@), '\n')), "\n"@)
}

/// Whether the first line stands apart as a summary: there are more than
/// two lines and the second is a paragraph break.
pub open spec fn has_summary(lines: Seq<Seq<char>>) -> bool {
    lines.len() > 2 && lines[1] == "\n\n"@
}

/// The summary: the first line without surrounding whitespace and without
/// trailing periods.
pub open spec fn summary(lines: Seq<Seq<char>>) -> Seq<char> {
    strip_trailing(trimmed(lines[0]), '.')
}

/// The methods that the documentation `raw` gives rise to under the method
/// name `name`: none without lines; the long form under `long_` and `name`,
/// followed by the summary under `name`, where the first line stands apart;
/// the merged text under `name` otherwise.
pub open spec fn doc_methods(raw: Seq<Seq<char>>, name: Seq<char>) -> Seq<MethodView> {
    let lines = doc_lines(raw);
    if lines.len() == 0 {
        Seq::empty()
    } else if has_summary(lines) {
        seq![
            MethodView { name: "long_"@ + name, args: ArgsView::Literal(merged(lines)) },
            MethodView { name, args: ArgsView::Literal(summary(lines)) },
        ]
    } else {
        seq![MethodView { name, args: ArgsView::Literal(merged(lines)) }]
    }
}

/// Prepares the raw lines of a comment for the reflow.
pub fn prepare_lines(docs: &Vec<String>) -> (res: Vec<String>)
    ensures
        texts(res@) == doc_lines(texts(docs@)),
{
    let mut out: Vec<String> = Vec::new();
    let n = docs.len();
    let mut i: usize = 0;
    while i < n
        invariant
            i <= n,
            n == docs@.len(),
            texts(out@) == doc_lines(texts(docs@)).take(i as int),
        decreases n - i,
    {
        let ghost before = texts(out@);
        let text = trim(docs[i].as_str());
        let line = if text.is_empty() {
            "\n\n".to_owned()
        } else {
            text.to_owned()
        };
        out.push(line);
        assert(texts(out@) =~= before.push(doc_line(docs@[i as int]@)));
        assert(texts(out@) =~= doc_lines(texts(docs@)).take(i + 1));
        i += 1;
    }
    assert(doc_lines(texts(docs@)).take(n as int) =~= doc_lines(texts(docs@)));
    out
}

} // verus!

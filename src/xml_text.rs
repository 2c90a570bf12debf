use vstd::prelude::*;

verus! {

/// Relies on `String::from(char)`: a string of that one character.
#[verifier::external_body]
fn char_to_string(c: char) -> (r: String)
    ensures
        r@ == seq![c],
{
    String::from(c)
}

/// A character as it may stand in an XML attribute value.
pub open spec fn escaped_char(c: char) -> Seq<char> {
    if c == '&' {
        "&amp;"@
    } else if c == '<' {
        "&lt;"@
    } else if c == '>' {
        "&gt;"@
    } else if c == '\'' {
        "&apos;"@
    } else if c == '"' {
        "&quot;"@
    } else {
        seq![c]
    }
}

/// Text escaped for an XML attribute value, character by character.
pub open spec fn escaped_text(s: Seq<char>) -> Seq<char>
    decreases s.len(),
{
    if s.len() == 0 {
        Seq::<char>::empty()
    } else {
        escaped_text(s.drop_last()) + escaped_char(s.last())
    }
}

/// Text read back from an XML attribute value: each of the five entities that
/// escaping writes stands for its character.
pub open spec fn unescaped_text(t: Seq<char>) -> Seq<char>
    decreases t.len(),
{
    if t.len() == 0 {
        Seq::<char>::empty()
    } else if t.len() >= 5 && t.take(5) == "&amp;"@ {
        seq!['&'] + unescaped_text(t.skip(5))
    } else if t.len() >= 4 && t.take(4) == "&lt;"@ {
        seq!['<'] + unescaped_text(t.skip(4))
    } else if t.len() >= 4 && t.take(4) == "&gt;"@ {
        seq!['>'] + unescaped_text(t.skip(4))
    } else if t.len() >= 6 && t.take(6) == "&apos;"@ {
        seq!['\''] + unescaped_text(t.skip(6))
    } else if t.len() >= 6 && t.take(6) == "&quot;"@ {
        seq!['"'] + unescaped_text(t.skip(6))
    } else {
        seq![t[0]] + unescaped_text(t.skip(1))
    }
}

proof fn lemma_escaped_text_first(s: Seq<char>)
    requires
        s.len() > 0,
    ensures
        escaped_text(s) == escaped_char(s[0]) + escaped_text(s.drop_first()),
    decreases s.len(),
{
    if s.len() == 1 {
        assert(s.drop_last() =~= Seq::<char>::empty());
        assert(s.drop_first() =~= Seq::<char>::empty());
        assert(escaped_text(s) =~= escaped_char(s[0]) + escaped_text(s.drop_first()));
    } else {
        lemma_escaped_text_first(s.drop_last());
        assert(s.drop_last().drop_first() =~= s.drop_first().drop_last());
        assert(s.drop_first().last() == s.last());
        assert(escaped_text(s) =~= escaped_char(s[0]) + escaped_text(s.drop_first()));
    }
}

proof fn lemma_unescape_escaped_char(c: char, rest: Seq<char>)
    ensures
        unescaped_text(escaped_char(c) + rest) == seq![c] + unescaped_text(rest),
{
    reveal_strlit("&amp;");
    reveal_strlit("&lt;");
    reveal_strlit("&gt;");
    reveal_strlit("&apos;");
    reveal_strlit("&quot;");
    let t = escaped_char(c) + rest;
    let k = escaped_char(c).len() as int;
    assert(t.take(k) =~= escaped_char(c));
    assert(t.skip(k) =~= rest);
    if c == '&' || c == '<' || c == '>' || c == '\'' || c == '"' {
        assert(t[0] == '&');
        assert(t[1] == escaped_char(c)[1]);
        assert(t.len() >= 4 ==> t.take(4)[1] == t[1]);
        assert(t.len() >= 5 ==> t.take(5)[1] == t[1]);
        assert(t.len() >= 6 ==> t.take(6)[1] == t[1]);
        assert(t.len() >= 4 ==> t.take(4)[2] == t[2]);
        assert(t.len() >= 6 ==> t.take(6)[2] == t[2]);
    } else {
        assert(t[0] == c);
        assert(t.len() >= 4 ==> t.take(4)[0] == c);
        assert(t.len() >= 5 ==> t.take(5)[0] == c);
        assert(t.len() >= 6 ==> t.take(6)[0] == c);
    }
}

/// Escaping loses nothing: reading the escaped text back gives the text.
pub proof fn lemma_unescape_escaped(s: Seq<char>)
    ensures
        unescaped_text(escaped_text(s)) == s,
    decreases s.len(),
{
    if s.len() > 0 {
        lemma_escaped_text_first(s);
        lemma_unescape_escaped_char(s[0], escaped_text(s.drop_first()));
        lemma_unescape_escaped(s.drop_first());
        assert(seq![s[0]] + s.drop_first() =~= s);
    }
}

/// Escaped text holds no apostrophe, so it ends only where its quoted attribute does.
pub proof fn lemma_escaped_has_no_apostrophe(s: Seq<char>)
    ensures
        !escaped_text(s).contains('\''),
    decreases s.len(),
{
    reveal_strlit("&amp;");
    reveal_strlit("&lt;");
    reveal_strlit("&gt;");
    reveal_strlit("&apos;");
    reveal_strlit("&quot;");
    if s.len() > 0 {
        lemma_escaped_has_no_apostrophe(s.drop_last());
        let e = escaped_text(s);
        let a = escaped_text(s.drop_last());
        let b = escaped_char(s.last());
        assert(e == a + b);
        assert forall|i: int| 0 <= i < e.len() implies e[i] != '\'' by {
            if i < a.len() {
                assert(e[i] == a[i]);
            } else {
                assert(e[i] == b[i - a.len()]);
            }
        }
    }
}

fn push_escaped_char(out: &mut String, c: char)
    ensures
        final(out)@ == old(out)@ + escaped_char(c),
{
    proof {
        reveal_strlit("&amp;");
        reveal_strlit("&lt;");
        reveal_strlit("&gt;");
        reveal_strlit("&apos;");
        reveal_strlit("&quot;");
    }
    if c == '&' {
        out.append("&amp;");
    } else if c == '<' {
        out.append("&lt;");
    } else if c == '>' {
        out.append("&gt;");
    } else if c == '\'' {
        out.append("&apos;");
    } else if c == '"' {
        out.append("&quot;");
    } else {
        let one: String = char_to_string(c);
        out.append(one.as_str());
    }
}

/// Appends `s` to `out`, escaped for an XML attribute value.
pub fn push_escaped(out: &mut String, s: &str)
    ensures
        final(out)@ == old(out)@ + escaped_text(s@),
{
    let ghost start = out@;
    for c in it: s.chars()
        invariant
            it.seq() == s@,
            out@ == start + escaped_text(it.seq().take(it.index())),
    {
        let ghost prefix = it.seq().take(it.index());
        push_escaped_char(out, c);
        assert(it.seq().take(it.index() + 1).drop_last() =~= prefix);
    }
    assert(s@.take(s@.len() as int) =~= s@);
}

} // verus!

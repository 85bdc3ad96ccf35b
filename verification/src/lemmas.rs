//! What holds of the builders whatever their arguments are.

use vstd::prelude::*;
use crate::builder::{
    ctcp_text, identify_lines, join_tokens, message_lines, nonempty, tokens_of,
};
use crate::command::Capability;
use crate::config::Config;
use crate::mode::{entry_text, mode_line, mode_text, run_after, sign_char, ModeEntry};
use crate::text::{
    count_breaks, has_no_break, is_break_at, lemma_split_count, lines_from, opt_trailing, opt_word,
    split_lines, trailing, word,
};

verus! {

/// The number of characters of all tokens together.
pub open spec fn total_len(tokens: Seq<Seq<char>>) -> nat
    decreases tokens.len(),
{
    if tokens.len() == 0 {
        0
    } else {
        total_len(tokens.drop_last()) + tokens.last().len()
    }
}

/// Joining a non-empty list of tokens adds one space between each two and
/// nothing else: the result is as long as the tokens together and one space
/// for each token but the first.
pub proof fn lemma_join_len(tokens: Seq<Seq<char>>)
    requires
        tokens.len() > 0,
    ensures
        join_tokens(tokens).len() == total_len(tokens) + tokens.len() - 1,
    decreases tokens.len(),
{
    if tokens.len() == 1 {
        assert(total_len(tokens.drop_last()) == 0);
    } else {
        lemma_join_len(tokens.drop_last());
    }
}

/// The joined text of non-empty tokens starts with the first character of
/// the first token and ends with the last character of the last one: no
/// space stands before or after, and the tokens keep their order.
pub proof fn lemma_join_ends(tokens: Seq<Seq<char>>)
    requires
        tokens.len() > 0,
        forall|i: int| 0 <= i < tokens.len() ==> (#[trigger] tokens[i]).len() > 0,
    ensures
        join_tokens(tokens).len() > 0,
        join_tokens(tokens).first() == tokens.first().first(),
        join_tokens(tokens).last() == tokens.last().last(),
    decreases tokens.len(),
{
    if tokens.len() > 1 {
        let front = tokens.drop_last();
        assert forall|i: int| 0 <= i < front.len() implies (#[trigger] front[i]).len() > 0 by {
            assert(front[i] == tokens[i]);
        }
        lemma_join_ends(front);
        assert(front.first() == tokens.first());
    }
}

/// The number of spaces in a text.
pub open spec fn spaces(s: Seq<char>) -> nat
    decreases s.len(),
{
    if s.len() == 0 {
        0
    } else {
        spaces(s.drop_last()) + if s.last() == ' ' {
            1nat
        } else {
            0nat
        }
    }
}

/// The spaces of two texts put together are those of the one and those of
/// the other.
pub proof fn lemma_spaces_concat(a: Seq<char>, b: Seq<char>)
    ensures
        spaces(a + b) == spaces(a) + spaces(b),
    decreases b.len(),
{
    if b.len() == 0 {
        assert(a + b =~= a);
    } else {
        lemma_spaces_concat(a, b.drop_last());
        assert((a + b).drop_last() =~= a + b.drop_last());
        assert((a + b).last() == b.last());
    }
}

/// Tokens that hold no space are joined by exactly one space between each
/// two: the joined text of `n` of them holds `n - 1` spaces.
pub proof fn lemma_join_spaces(tokens: Seq<Seq<char>>)
    requires
        tokens.len() > 0,
        forall|i: int| 0 <= i < tokens.len() ==> spaces(#[trigger] tokens[i]) == 0,
    ensures
        spaces(join_tokens(tokens)) == tokens.len() - 1,
    decreases tokens.len(),
{
    if tokens.len() > 1 {
        let front = tokens.drop_last();
        assert forall|i: int| 0 <= i < front.len() implies spaces(#[trigger] front[i]) == 0 by {
            assert(front[i] == tokens[i]);
        }
        lemma_join_spaces(front);
        lemma_spaces_concat(join_tokens(front), seq![' ']);
        lemma_spaces_concat(join_tokens(front) + seq![' '], tokens.last());
        assert(spaces(tokens.last()) == 0);
        let gap = seq![' '];
        assert(gap.drop_last() =~= Seq::<char>::empty());
        assert(spaces(gap.drop_last()) == 0);
        assert(gap.last() == ' ');
        assert(spaces(gap) == 1);
    }
}

/// The request for a non-empty list of extensions whose tokens are not empty
/// and hold no space names them in the order given, with one space between
/// each two and none before the first or after the last.
pub proof fn lemma_cap_payload(extensions: Seq<Capability>)
    requires
        extensions.len() > 0,
        forall|i: int|
            0 <= i < extensions.len() ==> (#[trigger] extensions[i]).token().len() > 0 && spaces(
                extensions[i].token(),
            ) == 0,
    ensures
        join_tokens(tokens_of(extensions)).len() > 0,
        join_tokens(tokens_of(extensions)).first() != ' ',
        join_tokens(tokens_of(extensions)).last() != ' ',
        spaces(join_tokens(tokens_of(extensions))) == extensions.len() - 1,
        extensions.len() > 1 ==> join_tokens(tokens_of(extensions)) == join_tokens(
            tokens_of(extensions.drop_last()),
        ) + seq![' '] + extensions.last().token(),
{
    let tokens = tokens_of(extensions);
    assert forall|i: int| 0 <= i < tokens.len() implies (#[trigger] tokens[i]).len() > 0 && spaces(
        tokens[i],
    ) == 0 by {
        assert(tokens[i] == extensions[i].token());
    }
    lemma_join_ends(tokens);
    lemma_join_spaces(tokens);
    lemma_no_space_at_ends(tokens.first());
    lemma_no_space_at_ends(tokens.last());
    assert(tokens.drop_last() =~= tokens_of(extensions.drop_last()));
}

/// A text in which no character is a space holds no space.
pub proof fn lemma_spaceless(s: Seq<char>)
    requires
        forall|i: int| 0 <= i < s.len() ==> s[i] != ' ',
    ensures
        spaces(s) == 0,
    decreases s.len(),
{
    if s.len() > 0 {
        lemma_spaceless(s.drop_last());
    }
}

/// The token of every extension that this library names is not empty and
/// holds no space.
pub proof fn lemma_named_token(c: Capability)
    requires
        !(c is Custom),
    ensures
        c.token().len() > 0,
        spaces(c.token()) == 0,
{
    reveal_strlit("multi-prefix");
    reveal_strlit("sasl");
    reveal_strlit("account-notify");
    reveal_strlit("away-notify");
    reveal_strlit("extended-join");
    reveal_strlit("metadata");
    reveal_strlit("metadata-notify");
    reveal_strlit("monitor");
    reveal_strlit("account-tag");
    reveal_strlit("batch");
    reveal_strlit("cap-notify");
    reveal_strlit("chghost");
    reveal_strlit("echo-message");
    reveal_strlit("invite-notify");
    reveal_strlit("server-time");
    reveal_strlit("userhost-in-names");
    lemma_spaceless(c.token());
}

/// A text without spaces neither starts nor ends with one.
pub proof fn lemma_no_space_at_ends(s: Seq<char>)
    requires
        s.len() > 0,
        spaces(s) == 0,
    ensures
        s.first() != ' ',
        s.last() != ' ',
    decreases s.len(),
{
    if s.len() > 1 {
        lemma_no_space_at_ends(s.drop_last());
        assert(s.drop_last().first() == s.first());
    }
}

/// One more token adds one space and the token, after all that was there.
pub proof fn lemma_join_push(tokens: Seq<Seq<char>>, token: Seq<char>)
    requires
        tokens.len() > 0,
    ensures
        join_tokens(tokens.push(token)) == join_tokens(tokens) + seq![' '] + token,
{
    assert(tokens.push(token).drop_last() =~= tokens);
}

/// Identifying with a nickname sends, where the password is empty, the end
/// of the negotiation, the nickname and the registration, and no password
/// command; where it is not, the password command stands second.
pub proof fn lemma_identify_order(config: Config)
    requires
        config.nickname is Some,
    ensures
        config.spec_password().len() == 0 ==> identify_lines(config) == seq![
            "CAP"@ + word("END"@),
            "NICK"@ + trailing(config.nickname->0@),
            "USER"@ + word(config.spec_username()) + word("0"@) + word(seq!['*']) + trailing(
                config.spec_real_name(),
            ),
        ],
        config.spec_password().len() != 0 ==> identify_lines(config) == seq![
            "CAP"@ + word("END"@),
            "PASS"@ + trailing(config.spec_password()),
            "NICK"@ + trailing(config.nickname->0@),
            "USER"@ + word(config.spec_username()) + word("0"@) + word(seq!['*']) + trailing(
                config.spec_real_name(),
            ),
        ],
{
    if config.spec_password().len() == 0 {
        assert(identify_lines(config) =~= seq![
            "CAP"@ + word("END"@),
            "NICK"@ + trailing(config.nickname->0@),
            "USER"@ + word(config.spec_username()) + word("0"@) + word(seq!['*']) + trailing(
                config.spec_real_name(),
            ),
        ]);
    } else {
        assert(identify_lines(config) =~= seq![
            "CAP"@ + word("END"@),
            "PASS"@ + trailing(config.spec_password()),
            "NICK"@ + trailing(config.nickname->0@),
            "USER"@ + word(config.spec_username()) + word("0"@) + word(seq!['*']) + trailing(
                config.spec_real_name(),
            ),
        ]);
    }
}

/// Without a nickname, identifying never gets as far as a nickname or a
/// registration: what it sends is the end of the negotiation and, where the
/// password is not empty, the password.
pub proof fn lemma_identify_without_nickname(config: Config)
    requires
        config.nickname is None,
    ensures
        identify_lines(config) == if config.spec_password().len() == 0 {
            seq!["CAP"@ + word("END"@)]
        } else {
            seq!["CAP"@ + word("END"@), "PASS"@ + trailing(config.spec_password())]
        },
{
}

/// An optional trailing field is left out if and only if the caller's text
/// is empty; otherwise it stands at the end behind a space and the
/// rest-of-line marker.
pub proof fn lemma_optional_trailing(head: Seq<char>, text: Seq<char>)
    ensures
        text.len() == 0 <==> head + opt_trailing(nonempty(text)) == head,
        text.len() != 0 ==> head + opt_trailing(nonempty(text)) == head + seq![' ', ':'] + text,
{
    if text.len() == 0 {
        assert(head + opt_trailing(nonempty(text)) =~= head);
    } else {
        assert(head + opt_trailing(nonempty(text)) =~= head + seq![' ', ':'] + text);
        assert((head + opt_trailing(nonempty(text))).len() == head.len() + 2 + text.len());
    }
}

/// An optional middle field is left out if and only if the caller's text is
/// empty; otherwise it stands at the end behind a space.
pub proof fn lemma_optional_word(head: Seq<char>, text: Seq<char>)
    ensures
        text.len() == 0 <==> head + opt_word(nonempty(text)) == head,
        text.len() != 0 ==> head + opt_word(nonempty(text)) == head + seq![' '] + text,
{
    if text.len() == 0 {
        assert(head + opt_word(nonempty(text)) =~= head);
    } else {
        assert(head + opt_word(nonempty(text)) =~= head + seq![' '] + text);
        assert((head + opt_word(nonempty(text))).len() == head.len() + 1 + text.len());
    }
}

/// A message with `k` line breaks is carried by `k + 1` commands, each to
/// the same target under the same verb, with the segments in their order.
pub proof fn lemma_message_lines(verb: Seq<char>, target: Seq<char>, message: Seq<char>)
    ensures
        message_lines(verb, target, message).len() == count_breaks(message) + 1,
        forall|k: int|
            0 <= k < message_lines(verb, target, message).len() ==> #[trigger] message_lines(
                verb,
                target,
                message,
            )[k] == verb + word(target) + trailing(split_lines(message)[k]),
{
    lemma_split_count(message);
}

/// A text without a line break is cut into itself alone.
pub proof fn lemma_unbroken_is_one_line(s: Seq<char>)
    requires
        has_no_break(s),
    ensures
        split_lines(s) == seq![s],
{
    lemma_unbroken_from(s, 0);
    assert(s.subrange(0, s.len() as int) =~= s);
}

/// The same, seen from a position on the way.
pub proof fn lemma_unbroken_from(s: Seq<char>, i: int)
    requires
        has_no_break(s),
        0 <= i,
    ensures
        lines_from(s, 0, i) == seq![s.subrange(0, s.len() as int)],
    decreases s.len() - i,
{
    if i < s.len() {
        assert(!is_break_at(s, i));
        lemma_unbroken_from(s, i + 1);
    }
}

/// A mode list of one entry without a parameter is the sign and the letter
/// and nothing after them; with a parameter, the parameter follows the sign
/// and letter after one space.
pub proof fn lemma_single_mode(target: Seq<char>, e: ModeEntry)
    ensures
        mode_line(target, seq![e]) == "MODE"@ + word(target) + seq![' ', sign_char(e.plus), e.letter]
            + match e.param {
            Some(p) => seq![' '] + p,
            None => Seq::empty(),
        },
{
    let one = seq![e];
    assert(one.skip(1) =~= Seq::<ModeEntry>::empty());
    assert(mode_text(one.skip(1), crate::mode::run_after(e)) =~= Seq::<char>::empty());
    assert(mode_text(one, None) =~= seq![' ', sign_char(e.plus), e.letter] + match e.param {
        Some(p) => seq![' '] + p,
        None => Seq::empty(),
    });
}

/// The text of a list of entries is the text of its first entry, read
/// against the run that stands open before it, and then the text of the
/// others, read against the run that the first one leaves open.
pub proof fn lemma_mode_text_first(e: ModeEntry, rest: Seq<ModeEntry>, run: Option<bool>)
    ensures
        mode_text(seq![e] + rest, run) == entry_text(e, run) + mode_text(rest, run_after(e)),
{
    let all = seq![e] + rest;
    assert(all[0] == e);
    assert(all.skip(1) =~= rest);
}

/// Two entries without parameters form one run. Where their signs agree the
/// sign is written once, before the two letters; where they differ, each
/// letter follows its own sign, and no space parts them.
pub proof fn lemma_mode_run(target: Seq<char>, a: ModeEntry, b: ModeEntry)
    requires
        a.param is None,
        b.param is None,
    ensures
        mode_line(target, seq![a, b]) == "MODE"@ + word(target) + if a.plus == b.plus {
            seq![' ', sign_char(a.plus), a.letter, b.letter]
        } else {
            seq![' ', sign_char(a.plus), a.letter, sign_char(b.plus), b.letter]
        },
{
    lemma_mode_text_first(a, seq![b], None);
    lemma_mode_text_first(b, Seq::empty(), run_after(a));
    assert(seq![a] + seq![b] =~= seq![a, b]);
    assert(seq![b] + Seq::<ModeEntry>::empty() =~= seq![b]);
    assert(mode_text(seq![a, b], None) =~= if a.plus == b.plus {
        seq![' ', sign_char(a.plus), a.letter, b.letter]
    } else {
        seq![' ', sign_char(a.plus), a.letter, sign_char(b.plus), b.letter]
    });
}

/// An entry with a parameter stands alone: whatever run was open before it,
/// it is written as a space, its sign and letter, a space and its parameter,
/// and what follows it starts afresh.
pub proof fn lemma_mode_with_parameter(
    e: ModeEntry,
    rest: Seq<ModeEntry>,
    run: Option<bool>,
)
    requires
        e.param is Some,
    ensures
        mode_text(seq![e] + rest, run) == seq![' ', sign_char(e.plus), e.letter, ' '] + e.param->0
            + mode_text(rest, None),
{
    lemma_mode_text_first(e, rest, run);
}

/// An envelope holds its payload between one delimiter at each end: it is
/// two characters longer than the payload, and what stands between its
/// first and its last character is the payload as given, delimiters in it
/// included.
pub proof fn lemma_ctcp_envelope(payload: Seq<char>)
    ensures
        ctcp_text(payload).len() == payload.len() + 2,
        ctcp_text(payload).first() == '\u{1}',
        ctcp_text(payload).last() == '\u{1}',
        ctcp_text(payload).subrange(1, payload.len() as int + 1) == payload,
{
    assert(ctcp_text(payload).subrange(1, payload.len() as int + 1) =~= payload);
}

/// A payload without a line break travels in one command.
pub proof fn lemma_ctcp_one_command(target: Seq<char>, payload: Seq<char>)
    requires
        has_no_break(payload),
    ensures
        message_lines("PRIVMSG"@, target, ctcp_text(payload)) == seq![
            "PRIVMSG"@ + word(target) + trailing(ctcp_text(payload)),
        ],
{
    let text = ctcp_text(payload);
    assert forall|i: int| !is_break_at(text, i) by {
        if is_break_at(text, i) {
            assert(text[i] == '\r' && text[i + 1] == '\n');
            assert(1 <= i && i + 1 <= payload.len());
            assert(text[i] == payload[i - 1]);
            assert(text[i + 1] == payload[i]);
            assert(is_break_at(payload, i - 1));
        }
    }
    lemma_unbroken_is_one_line(text);
    assert(message_lines("PRIVMSG"@, target, text) =~= seq![
        "PRIVMSG"@ + word(target) + trailing(text),
    ]);
}

} // verus!

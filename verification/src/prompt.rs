//! Prompt templating: renders an ordered conversation history into the
//! single model-ready prompt string, one delimited turn per message plus
//! a trailing generation cue for the assistant role.

use vstd::prelude::*;
use vstd::string::StringExecFns;

use crate::api::{role_label, Message, Role};

verus! {

/// One rendered turn: start marker, role name, newline, content,
/// end marker, newline.
pub open spec fn turn_of(m: Message) -> Seq<char> {
    "<|im_start|>"@ + role_label(m.role) + "\n"@ + m.content@ + "<|im_end|>\n"@
}

/// All turns of a history, concatenated in order.
pub open spec fn turns_of(ms: Seq<Message>) -> Seq<char>
    decreases ms.len(),
{
    if ms.len() == 0 {
        Seq::<char>::empty()
    } else {
        turn_of(ms[0]) + turns_of(ms.drop_first())
    }
}

/// The generation cue appended after all turns: an assistant start marker
/// with no content.
pub open spec fn generation_cue() -> Seq<char> {
    "<|im_start|>assistant\n"@
}

/// The full rendered prompt for a history.
pub open spec fn prompt_of(ms: Seq<Message>) -> Seq<char> {
    turns_of(ms) + generation_cue()
}

/// Appending one message to a history appends exactly its turn to the
/// rendered turn sequence.
proof fn lemma_turns_of_push(ms: Seq<Message>, m: Message)
    ensures
        turns_of(ms.push(m)) == turns_of(ms) + turn_of(m),
    decreases ms.len(),
{
    if ms.len() == 0 {
        assert(ms.push(m)[0] == m);
        assert(ms.push(m).drop_first() =~= Seq::<Message>::empty());
        assert(turns_of(Seq::<Message>::empty()) == Seq::<char>::empty());
        assert(turns_of(ms.push(m)) =~= turns_of(ms) + turn_of(m));
    } else {
        assert(ms.push(m)[0] == ms[0]);
        assert(ms.push(m).drop_first() =~= ms.drop_first().push(m));
        lemma_turns_of_push(ms.drop_first(), m);
        assert(turns_of(ms.push(m)) =~= turns_of(ms) + turn_of(m));
    }
}

/// Renders a conversation history into one prompt string: for each message
/// in order, a start marker with the role name, a newline, the content and
/// an end marker, then the assistant generation cue. Pure and total.
pub fn build_prompt_from_messages(messages: &[Message]) -> (prompt: String)
    ensures
        prompt@ == prompt_of(messages@),
{
    let mut out = String::new();
    let n = messages.len();
    let mut i: usize = 0;
    while i < n
        invariant
            n == messages@.len(),
            i <= n,
            out@ == turns_of(messages@.subrange(0, i as int)),
        decreases n - i,
    {
        let m = &messages[i];
        out.append("<|im_start|>");
        out.append(m.role.name());
        out.append("\n");
        out.append(m.content.as_str());
        out.append("<|im_end|>\n");
        proof {
            let pre = messages@.subrange(0, i as int);
            assert(messages@.subrange(0, i + 1 as int) =~= pre.push(messages@[i as int]));
            lemma_turns_of_push(pre, messages@[i as int]);
            assert(out@ =~= turns_of(messages@.subrange(0, i + 1 as int)));
        }
        i = i + 1;
    }
    assert(messages@.subrange(0, n as int) =~= messages@);
    out.append("<|im_start|>assistant\n");
    out
}

/// Rendering is deterministic: any two renderings of the same history are
/// byte-identical. This holds because `build_prompt_from_messages` pins its
/// result to `prompt_of` of the history alone.
pub proof fn lemma_prompt_deterministic(ms: Seq<Message>, p1: Seq<char>, p2: Seq<char>)
    requires
        p1 == prompt_of(ms),
        p2 == prompt_of(ms),
    ensures
        p1 == p2,
{
}

} // verus!

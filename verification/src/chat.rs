use vstd::prelude::*;

use crate::json::{parse_json, parsed_json, Json};
use crate::text::push_char;

verus! {

/// How one character of a prompt is written inside the request body: a double
/// quote and a line feed get a backslash, every other character stays.
pub open spec fn escape_char(c: char) -> Seq<char> {
    if c == '"' {
        seq!['\\', '"']
    } else if c == '\n' {
        seq!['\\', 'n']
    } else {
        seq![c]
    }
}

/// The prompt as written inside the request body.
pub open spec fn escape_spec(s: Seq<char>) -> Seq<char>
    decreases s.len(),
{
    if s.len() == 0 {
        seq![]
    } else {
        escape_spec(s.drop_last()) + escape_char(s.last())
    }
}

/// Escaping works character by character: the escape of a joined text is
/// the escapes of its parts, joined.
pub proof fn lemma_escape_concat(a: Seq<char>, b: Seq<char>)
    ensures
        escape_spec(a + b) == escape_spec(a) + escape_spec(b),
    decreases b.len(),
{
    if b.len() == 0 {
        assert(a + b =~= a);
        assert(escape_spec(a) + escape_spec(b) =~= escape_spec(a));
    } else {
        lemma_escape_concat(a, b.drop_last());
        assert((a + b).drop_last() =~= a + b.drop_last());
        assert((a + b).last() == b.last());
        assert(escape_spec(a + b) =~= escape_spec(a) + escape_spec(b));
    }
}

/// An escaped prompt has no line feed left, and each double quote in it
/// comes right after a backslash.
pub proof fn lemma_escape_safe(s: Seq<char>)
    ensures
        forall|k: int| 0 <= k < escape_spec(s).len() ==> #[trigger] escape_spec(s)[k] != '\n',
        forall|k: int|
            0 <= k < escape_spec(s).len() && #[trigger] escape_spec(s)[k] == '"' ==> k > 0
                && escape_spec(s)[k - 1] == '\\',
    decreases s.len(),
{
    if s.len() > 0 {
        let p = s.drop_last();
        lemma_escape_safe(p);
        let e = escape_spec(s);
        let ep = escape_spec(p);
        let c = escape_char(s.last());
        assert(e =~= ep + c);
        assert forall|k: int| 0 <= k < e.len() implies #[trigger] e[k] != '\n' by {
            if k >= ep.len() {
                assert(e[k] == c[k - ep.len()]);
            } else {
                assert(e[k] == ep[k]);
            }
        }
        assert forall|k: int| 0 <= k < e.len() && #[trigger] e[k] == '"' implies k > 0 && e[k
            - 1] == '\\' by {
            if k >= ep.len() {
                assert(e[k] == c[k - ep.len()]);
                if k > ep.len() {
                    assert(e[k - 1] == c[k - 1 - ep.len()]);
                }
            } else {
                assert(e[k] == ep[k]);
                assert(e[k - 1] == ep[k - 1]);
            }
        }
    }
}

/// Replaces each double quote of `prompt` by `\"` and then each line feed by
/// `\n`.
pub fn escape_prompt(prompt: &str) -> (escaped: String)
    ensures
        escaped@ == escape_spec(prompt@),
{
    let n = prompt.unicode_len();
    let mut escaped = String::new();
    let mut i: usize = 0;
    while i < n
        invariant
            n == prompt@.len(),
            i <= n,
            escaped@ == escape_spec(prompt@.subrange(0, i as int)),
        decreases n - i,
    {
        let c = prompt.get_char(i);
        if c == '"' {
            push_char(&mut escaped, '\\');
            push_char(&mut escaped, '"');
        } else if c == '\n' {
            push_char(&mut escaped, '\\');
            push_char(&mut escaped, 'n');
        } else {
            push_char(&mut escaped, c);
        }
        assert(prompt@.subrange(0, i + 1).drop_last() =~= prompt@.subrange(0, i as int));
        assert(escaped@ =~= escape_spec(prompt@.subrange(0, i + 1)));
        i = i + 1;
    }
    assert(prompt@.subrange(0, n as int) =~= prompt@);
    escaped
}

/// The chat completion request that sends `prompt` and the screenshot
/// `image_base64` to the model server.
pub open spec fn chat_body_spec(prompt: Seq<char>, image_base64: Seq<char>) -> Seq<char> {
    "{\"model\":\"os-atlas\",\"messages\":[{\"role\":\"user\",\"content\":[{\"type\":\"text\",\"text\":\""@
        + escape_spec(prompt)
        + "\"},{\"type\":\"image_url\",\"image_url\":{\"url\":\"data:image/png;base64,"@
        + image_base64 + "\"}}]}],\"max_tokens\":128}"@
}

/// Where the two arguments stand in the request body: the escaped prompt
/// right after the fixed opening that ends in `"text":"`, and the image data
/// right before the fixed closing that starts with a quote; between them
/// stands the fixed text that opens the image URL.
pub proof fn lemma_chat_body_parts(prompt: Seq<char>, image_base64: Seq<char>)
    ensures
        ({
            let body = chat_body_spec(prompt, image_base64);
            let head = "{\"model\":\"os-atlas\",\"messages\":[{\"role\":\"user\",\"content\":[{\"type\":\"text\",\"text\":\""@
                + escape_spec(prompt);
            let middle = "\"},{\"type\":\"image_url\",\"image_url\":{\"url\":\"data:image/png;base64,"@;
            let tail = image_base64 + "\"}}]}],\"max_tokens\":128}"@;
            &&& body.len() == head.len() + middle.len() + tail.len()
            &&& body.subrange(0, head.len() as int) == head
            &&& body.subrange(head.len() as int, (head.len() + middle.len()) as int) == middle
            &&& body.subrange(body.len() - tail.len(), body.len() as int) == tail
        }),
{
    let body = chat_body_spec(prompt, image_base64);
    let head = "{\"model\":\"os-atlas\",\"messages\":[{\"role\":\"user\",\"content\":[{\"type\":\"text\",\"text\":\""@
        + escape_spec(prompt);
    let middle = "\"},{\"type\":\"image_url\",\"image_url\":{\"url\":\"data:image/png;base64,"@;
    let tail = image_base64 + "\"}}]}],\"max_tokens\":128}"@;
    assert(body =~= head + middle + tail);
    assert(body.subrange(0, head.len() as int) =~= head);
    assert(body.subrange(head.len() as int, (head.len() + middle.len()) as int) =~= middle);
    assert(body.subrange(body.len() - tail.len(), body.len() as int) =~= tail);
}

/// The body of the chat completion request for `prompt` and the base64 PNG
/// `image_base64`.
pub fn chat_request_body(prompt: &str, image_base64: &str) -> (body: String)
    ensures
        body@ == chat_body_spec(prompt@, image_base64@),
{
    let escaped = escape_prompt(prompt);
    let mut body = String::from_str(
        "{\"model\":\"os-atlas\",\"messages\":[{\"role\":\"user\",\"content\":[{\"type\":\"text\",\"text\":\"",
    );
    body.append(escaped.as_str());
    body.append("\"},{\"type\":\"image_url\",\"image_url\":{\"url\":\"data:image/png;base64,");
    body.append(image_base64);
    body.append("\"}}]}],\"max_tokens\":128}");
    body
}

/// The text of `choices[0].message.content` in a chat completion reply, or the
/// empty text where the reply has no such string.
pub open spec fn reply_content_spec(reply: Json) -> Seq<char> {
    match reply.get_spec("choices"@) {
        Some(choices) => match choices.at_spec(0) {
            Some(choice) => match choice.get_spec("message"@) {
                Some(message) => match message.get_spec("content"@) {
                    Some(Json::Str(s)) => s@,
                    _ => Seq::empty(),
                },
                None => Seq::empty(),
            },
            None => Seq::empty(),
        },
        None => Seq::empty(),
    }
}

/// The answer text of a chat completion reply.
pub fn reply_content(reply: &Json) -> (content: String)
    ensures
        content@ == reply_content_spec(*reply),
{
    let text = match reply.get("choices") {
        Some(choices) => match choices.at(0) {
            Some(choice) => match choice.get("message") {
                Some(message) => match message.get("content") {
                    Some(content) => match content.as_str() {
                        Some(s) => s,
                        None => "",
                    },
                    None => "",
                },
                None => "",
            },
            None => "",
        },
        None => "",
    };
    proof {
        reveal_strlit("");
    }
    String::from_str(text)
}

/// The answer text in the raw reply of the model server: the reply is read as
/// JSON, and a reply that is not JSON counts as `null`.
pub fn reply_text(raw: &str) -> (content: String)
    ensures
        content@ == reply_content_spec(
            match parsed_json(raw@) {
                Some(v) => v,
                None => Json::Null,
            },
        ),
{
    match parse_json(raw) {
        Ok(reply) => reply_content(&reply),
        Err(_) => reply_content(&Json::Null),
    }
}

} // verus!

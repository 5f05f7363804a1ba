//! What the scripts say that hand events to a page.

use vstd::prelude::*;

use crate::browser::input::{KeyEventData, MouseEventData, MouseNumbers};
use crate::browser::limits::{Modifiers, TextInputState};

verus! {

/// `s` holds `m`.
pub open spec fn holds(s: Seq<char>, m: Seq<char>) -> bool {
    exists|i: int|
        0 <= i && i + m.len() <= s.len() && #[trigger] s.subrange(i, i + m.len()) == m
}

/// `s` holds a member of a JSON object: the name in quotes, a colon and the value.
pub open spec fn says(s: Seq<char>, name: Seq<char>, value: Seq<char>) -> bool {
    holds(s, seq!['"'] + name + seq!['"', ':'] + value)
}

/// What a JSON object says of a flag.
pub open spec fn truth(b: bool) -> Seq<char> {
    if b {
        "true"@
    } else {
        "false"@
    }
}

proof fn texts_grow(s: Seq<char>, x: Seq<char>, m: Seq<char>)
    requires
        holds(s, m),
    ensures
        holds(s + x, m),
{
    let i = choose|i: int|
        0 <= i && i + m.len() <= s.len() && #[trigger] s.subrange(i, i + m.len()) == m;
    assert((s + x).subrange(i, i + m.len()) =~= s.subrange(i, i + m.len()));
}

proof fn texts_end(s: Seq<char>, x: Seq<char>, m: Seq<char>)
    requires
        holds(x, m),
    ensures
        holds(s + x, m),
{
    let i = choose|i: int|
        0 <= i && i + m.len() <= x.len() && #[trigger] x.subrange(i, i + m.len()) == m;
    assert((s + x).subrange(s.len() + i, s.len() + i + m.len()) =~= x.subrange(i, i + m.len()));
}

/// The opening of a member with its value behind it, at the end of a text.
proof fn member_ends(s: Seq<char>, opening: Seq<char>, name: Seq<char>, value: Seq<char>)
    requires
        opening.len() >= name.len(),
        opening.skip(opening.len() - name.len()) =~= name,
    ensures
        holds(s + opening + value, name + value),
{
    let t = s + opening + value;
    let i = (s.len() + opening.len() - name.len()) as int;
    assert forall|k: int| 0 <= k < name.len() implies t[i + k] == name[k] by {
        let at = opening.len() - name.len();
        assert(opening.skip(at)[k] == opening[at + k]);
    }
    assert(t.subrange(i, i + (name + value).len()) =~= name + value);
}

/// A member by its name alone.
proof fn members_are_said(s: Seq<char>, quoted: Seq<char>, name: Seq<char>, value: Seq<char>)
    requires
        quoted =~= seq!['"'] + name + seq!['"', ':'],
        holds(s, quoted + value),
    ensures
        says(s, name, value),
{
    assert(quoted + value =~= seq!['"'] + name + seq!['"', ':'] + value);
}

/// Each modifier key is named, and whether it is held.
pub proof fn modifiers_are_named(modifiers: Modifiers)
    ensures
        ({
            let s = crate::browser::input::modifiers_text(modifiers);
            &&& says(s, "ctrlKey"@, truth(modifiers.ctrl_key))
            &&& says(s, "shiftKey"@, truth(modifiers.shift_key))
            &&& says(s, "altKey"@, truth(modifiers.alt_key))
            &&& says(s, "metaKey"@, truth(modifiers.meta_key))
        }),
{
    reveal_strlit(",\"altKey\":");
    reveal_strlit(",\"ctrlKey\":");
    reveal_strlit(",\"metaKey\":");
    reveal_strlit(",\"shiftKey\":");
    reveal_strlit("\"ctrlKey\":");
    reveal_strlit("\"shiftKey\":");
    reveal_strlit("\"altKey\":");
    reveal_strlit("\"metaKey\":");
    reveal_strlit(",");
    assert(",\"ctrlKey\":"@.skip(1) =~= "\"ctrlKey\":"@);
    assert(",\"ctrlKey\":"@.len() == 11 && "\"ctrlKey\":"@.len() == 10);
    assert(",\"shiftKey\":"@.skip(1) =~= "\"shiftKey\":"@);
    assert(",\"shiftKey\":"@.len() == 12 && "\"shiftKey\":"@.len() == 11);
    assert(",\"altKey\":"@.skip(1) =~= "\"altKey\":"@);
    assert(",\"altKey\":"@.len() == 10 && "\"altKey\":"@.len() == 9);
    assert(",\"metaKey\":"@.skip(1) =~= "\"metaKey\":"@);
    assert(",\"metaKey\":"@.len() == 11 && "\"metaKey\":"@.len() == 10);
    let p0 = ",\"ctrlKey\":"@;
    let p1 = p0 + crate::browser::input::flag_text(modifiers.ctrl_key);
    let p2 = p1 + ",\"shiftKey\":"@;
    let p3 = p2 + crate::browser::input::flag_text(modifiers.shift_key);
    let p4 = p3 + ",\"altKey\":"@;
    let p5 = p4 + crate::browser::input::flag_text(modifiers.alt_key);
    let p6 = p5 + ",\"metaKey\":"@;
    let p7 = p6 + crate::browser::input::flag_text(modifiers.meta_key);
    assert(",\"ctrlKey\":"@ =~= ","@ + "\"ctrlKey\":"@);
    member_ends(
        Seq::empty(),
        ",\"ctrlKey\":"@,
        "\"ctrlKey\":"@,
        crate::browser::input::flag_text(modifiers.ctrl_key),
    );
    assert(Seq::<char>::empty() + ",\"ctrlKey\":"@ =~= p0);
    texts_grow(
        p1,
        ",\"shiftKey\":"@,
        "\"ctrlKey\":"@ + crate::browser::input::flag_text(modifiers.ctrl_key),
    );
    texts_grow(
        p2,
        crate::browser::input::flag_text(modifiers.shift_key),
        "\"ctrlKey\":"@ + crate::browser::input::flag_text(modifiers.ctrl_key),
    );
    texts_grow(
        p3,
        ",\"altKey\":"@,
        "\"ctrlKey\":"@ + crate::browser::input::flag_text(modifiers.ctrl_key),
    );
    texts_grow(
        p4,
        crate::browser::input::flag_text(modifiers.alt_key),
        "\"ctrlKey\":"@ + crate::browser::input::flag_text(modifiers.ctrl_key),
    );
    texts_grow(
        p5,
        ",\"metaKey\":"@,
        "\"ctrlKey\":"@ + crate::browser::input::flag_text(modifiers.ctrl_key),
    );
    texts_grow(
        p6,
        crate::browser::input::flag_text(modifiers.meta_key),
        "\"ctrlKey\":"@ + crate::browser::input::flag_text(modifiers.ctrl_key),
    );
    member_ends(
        p1,
        ",\"shiftKey\":"@,
        "\"shiftKey\":"@,
        crate::browser::input::flag_text(modifiers.shift_key),
    );
    texts_grow(
        p3,
        ",\"altKey\":"@,
        "\"shiftKey\":"@ + crate::browser::input::flag_text(modifiers.shift_key),
    );
    texts_grow(
        p4,
        crate::browser::input::flag_text(modifiers.alt_key),
        "\"shiftKey\":"@ + crate::browser::input::flag_text(modifiers.shift_key),
    );
    texts_grow(
        p5,
        ",\"metaKey\":"@,
        "\"shiftKey\":"@ + crate::browser::input::flag_text(modifiers.shift_key),
    );
    texts_grow(
        p6,
        crate::browser::input::flag_text(modifiers.meta_key),
        "\"shiftKey\":"@ + crate::browser::input::flag_text(modifiers.shift_key),
    );
    member_ends(
        p3,
        ",\"altKey\":"@,
        "\"altKey\":"@,
        crate::browser::input::flag_text(modifiers.alt_key),
    );
    texts_grow(
        p5,
        ",\"metaKey\":"@,
        "\"altKey\":"@ + crate::browser::input::flag_text(modifiers.alt_key),
    );
    texts_grow(
        p6,
        crate::browser::input::flag_text(modifiers.meta_key),
        "\"altKey\":"@ + crate::browser::input::flag_text(modifiers.alt_key),
    );
    member_ends(
        p5,
        ",\"metaKey\":"@,
        "\"metaKey\":"@,
        crate::browser::input::flag_text(modifiers.meta_key),
    );
    reveal_strlit("ctrlKey");
    reveal_strlit("shiftKey");
    reveal_strlit("altKey");
    reveal_strlit("metaKey");
    members_are_said(
        p7,
        "\"ctrlKey\":"@,
        "ctrlKey"@,
        crate::browser::input::flag_text(modifiers.ctrl_key),
    );
    members_are_said(
        p7,
        "\"shiftKey\":"@,
        "shiftKey"@,
        crate::browser::input::flag_text(modifiers.shift_key),
    );
    members_are_said(
        p7,
        "\"altKey\":"@,
        "altKey"@,
        crate::browser::input::flag_text(modifiers.alt_key),
    );
    members_are_said(
        p7,
        "\"metaKey\":"@,
        "metaKey"@,
        crate::browser::input::flag_text(modifiers.meta_key),
    );
}

/// The modifier keys, each with its name in quotes.
proof fn modifiers_are_held(modifiers: Modifiers)
    ensures
        ({
            let s = crate::browser::input::modifiers_text(modifiers);
            &&& holds(s, "\"ctrlKey\":"@ + crate::browser::input::flag_text(modifiers.ctrl_key))
            &&& holds(s, "\"shiftKey\":"@ + crate::browser::input::flag_text(modifiers.shift_key))
            &&& holds(s, "\"altKey\":"@ + crate::browser::input::flag_text(modifiers.alt_key))
            &&& holds(s, "\"metaKey\":"@ + crate::browser::input::flag_text(modifiers.meta_key))
        }),
{
    modifiers_are_named(modifiers);
    reveal_strlit("\"ctrlKey\":");
    reveal_strlit("ctrlKey");
    assert("\"ctrlKey\":"@ + crate::browser::input::flag_text(modifiers.ctrl_key)
        =~= seq!['"'] + "ctrlKey"@ + seq!['"', ':'] + truth(modifiers.ctrl_key));
    reveal_strlit("\"shiftKey\":");
    reveal_strlit("shiftKey");
    assert("\"shiftKey\":"@ + crate::browser::input::flag_text(modifiers.shift_key)
        =~= seq!['"'] + "shiftKey"@ + seq!['"', ':'] + truth(modifiers.shift_key));
    reveal_strlit("\"altKey\":");
    reveal_strlit("altKey");
    assert("\"altKey\":"@ + crate::browser::input::flag_text(modifiers.alt_key)
        =~= seq!['"'] + "altKey"@ + seq!['"', ':'] + truth(modifiers.alt_key));
    reveal_strlit("\"metaKey\":");
    reveal_strlit("metaKey");
    assert("\"metaKey\":"@ + crate::browser::input::flag_text(modifiers.meta_key)
        =~= seq!['"'] + "metaKey"@ + seq!['"', ':'] + truth(modifiers.meta_key));
}

/// The script for a key event says what the event is: its key and code, where the key
/// is, the modifier keys, whether it repeats, and the text that it types.
#[verifier::spinoff_prover]
#[verifier::rlimit(60)]
pub proof fn key_events_are_spelled_out(event_type: Seq<char>, event: KeyEventData)
    ensures
        ({
            let s = crate::browser::input::key_script(event_type, event);
            &&& says(s, "key"@, crate::weburl::json_text(event.key@))
            &&& says(s, "code"@, crate::weburl::json_text(event.code@))
            &&& says(s, "location"@, crate::text::decimal_text(event.location as nat))
            &&& says(s, "ctrlKey"@, truth(event.modifiers.ctrl_key))
            &&& says(s, "shiftKey"@, truth(event.modifiers.shift_key))
            &&& says(s, "altKey"@, truth(event.modifiers.alt_key))
            &&& says(s, "metaKey"@, truth(event.modifiers.meta_key))
            &&& says(s, "repeat"@, truth(event.repeat))
            &&& says(s, "text"@, crate::weburl::json_text(event.text@))
            &&& says(s, "inputText"@, crate::weburl::json_text(event.text@))
            &&& says(s, "applyText"@, truth(event.apply_text))
        }),
{
    modifiers_are_held(event.modifiers);
    reveal_strlit(", {\"key\":");
    reveal_strlit(",\"applyText\":");
    reveal_strlit(",\"code\":");
    reveal_strlit(",\"inputText\":");
    reveal_strlit(",\"isComposing\":false,\"text\":");
    reveal_strlit(",\"location\":");
    reveal_strlit(",\"repeat\":");
    reveal_strlit("globalThis.__vixenDispatchKeyEvent ? globalThis.__vixenDispatchKeyEvent(");
    reveal_strlit("}) : false");
    reveal_strlit("\"key\":");
    reveal_strlit("\"code\":");
    reveal_strlit("\"location\":");
    reveal_strlit("\"repeat\":");
    reveal_strlit("\"text\":");
    reveal_strlit("\"inputText\":");
    reveal_strlit("\"applyText\":");
    assert(", {\"key\":"@.skip(3) =~= "\"key\":"@);
    assert(", {\"key\":"@.len() == 9 && "\"key\":"@.len() == 6);
    assert(",\"code\":"@.skip(1) =~= "\"code\":"@);
    assert(",\"code\":"@.len() == 8 && "\"code\":"@.len() == 7);
    assert(",\"location\":"@.skip(1) =~= "\"location\":"@);
    assert(",\"location\":"@.len() == 12 && "\"location\":"@.len() == 11);
    assert(",\"repeat\":"@.skip(1) =~= "\"repeat\":"@);
    assert(",\"repeat\":"@.len() == 10 && "\"repeat\":"@.len() == 9);
    assert(",\"isComposing\":false,\"text\":"@.skip(21) =~= "\"text\":"@);
    assert(",\"isComposing\":false,\"text\":"@.len() == 28 && "\"text\":"@.len() == 7);
    assert(",\"inputText\":"@.skip(1) =~= "\"inputText\":"@);
    assert(",\"inputText\":"@.len() == 13 && "\"inputText\":"@.len() == 12);
    assert(",\"applyText\":"@.skip(1) =~= "\"applyText\":"@);
    assert(",\"applyText\":"@.len() == 13 && "\"applyText\":"@.len() == 12);
    let p0 = "globalThis.__vixenDispatchKeyEvent ? globalThis.__vixenDispatchKeyEvent("@;
    let p1 = p0 + crate::weburl::json_text(event_type);
    let p2 = p1 + ", {\"key\":"@;
    let p3 = p2 + crate::weburl::json_text(event.key@);
    let p4 = p3 + ",\"code\":"@;
    let p5 = p4 + crate::weburl::json_text(event.code@);
    let p6 = p5 + ",\"location\":"@;
    let p7 = p6 + crate::text::decimal_text(event.location as nat);
    let p8 = p7 + crate::browser::input::modifiers_text(event.modifiers);
    let p9 = p8 + ",\"repeat\":"@;
    let p10 = p9 + crate::browser::input::flag_text(event.repeat);
    let p11 = p10 + ",\"isComposing\":false,\"text\":"@;
    let p12 = p11 + crate::weburl::json_text(event.text@);
    let p13 = p12 + ",\"inputText\":"@;
    let p14 = p13 + crate::weburl::json_text(event.text@);
    let p15 = p14 + ",\"applyText\":"@;
    let p16 = p15 + crate::browser::input::flag_text(event.apply_text);
    let p17 = p16 + "}) : false"@;
    member_ends(p1, ", {\"key\":"@, "\"key\":"@, crate::weburl::json_text(event.key@));
    texts_grow(p3, ",\"code\":"@, "\"key\":"@ + crate::weburl::json_text(event.key@));
    texts_grow(
        p4,
        crate::weburl::json_text(event.code@),
        "\"key\":"@ + crate::weburl::json_text(event.key@),
    );
    texts_grow(p5, ",\"location\":"@, "\"key\":"@ + crate::weburl::json_text(event.key@));
    texts_grow(
        p6,
        crate::text::decimal_text(event.location as nat),
        "\"key\":"@ + crate::weburl::json_text(event.key@),
    );
    texts_grow(
        p7,
        crate::browser::input::modifiers_text(event.modifiers),
        "\"key\":"@ + crate::weburl::json_text(event.key@),
    );
    texts_grow(p8, ",\"repeat\":"@, "\"key\":"@ + crate::weburl::json_text(event.key@));
    texts_grow(
        p9,
        crate::browser::input::flag_text(event.repeat),
        "\"key\":"@ + crate::weburl::json_text(event.key@),
    );
    texts_grow(
        p10,
        ",\"isComposing\":false,\"text\":"@,
        "\"key\":"@ + crate::weburl::json_text(event.key@),
    );
    texts_grow(
        p11,
        crate::weburl::json_text(event.text@),
        "\"key\":"@ + crate::weburl::json_text(event.key@),
    );
    texts_grow(p12, ",\"inputText\":"@, "\"key\":"@ + crate::weburl::json_text(event.key@));
    texts_grow(
        p13,
        crate::weburl::json_text(event.text@),
        "\"key\":"@ + crate::weburl::json_text(event.key@),
    );
    texts_grow(p14, ",\"applyText\":"@, "\"key\":"@ + crate::weburl::json_text(event.key@));
    texts_grow(
        p15,
        crate::browser::input::flag_text(event.apply_text),
        "\"key\":"@ + crate::weburl::json_text(event.key@),
    );
    texts_grow(p16, "}) : false"@, "\"key\":"@ + crate::weburl::json_text(event.key@));
    member_ends(p3, ",\"code\":"@, "\"code\":"@, crate::weburl::json_text(event.code@));
    texts_grow(p5, ",\"location\":"@, "\"code\":"@ + crate::weburl::json_text(event.code@));
    texts_grow(
        p6,
        crate::text::decimal_text(event.location as nat),
        "\"code\":"@ + crate::weburl::json_text(event.code@),
    );
    texts_grow(
        p7,
        crate::browser::input::modifiers_text(event.modifiers),
        "\"code\":"@ + crate::weburl::json_text(event.code@),
    );
    texts_grow(p8, ",\"repeat\":"@, "\"code\":"@ + crate::weburl::json_text(event.code@));
    texts_grow(
        p9,
        crate::browser::input::flag_text(event.repeat),
        "\"code\":"@ + crate::weburl::json_text(event.code@),
    );
    texts_grow(
        p10,
        ",\"isComposing\":false,\"text\":"@,
        "\"code\":"@ + crate::weburl::json_text(event.code@),
    );
    texts_grow(
        p11,
        crate::weburl::json_text(event.text@),
        "\"code\":"@ + crate::weburl::json_text(event.code@),
    );
    texts_grow(p12, ",\"inputText\":"@, "\"code\":"@ + crate::weburl::json_text(event.code@));
    texts_grow(
        p13,
        crate::weburl::json_text(event.text@),
        "\"code\":"@ + crate::weburl::json_text(event.code@),
    );
    texts_grow(p14, ",\"applyText\":"@, "\"code\":"@ + crate::weburl::json_text(event.code@));
    texts_grow(
        p15,
        crate::browser::input::flag_text(event.apply_text),
        "\"code\":"@ + crate::weburl::json_text(event.code@),
    );
    texts_grow(p16, "}) : false"@, "\"code\":"@ + crate::weburl::json_text(event.code@));
    member_ends(
        p5,
        ",\"location\":"@,
        "\"location\":"@,
        crate::text::decimal_text(event.location as nat),
    );
    texts_grow(
        p7,
        crate::browser::input::modifiers_text(event.modifiers),
        "\"location\":"@ + crate::text::decimal_text(event.location as nat),
    );
    texts_grow(
        p8,
        ",\"repeat\":"@,
        "\"location\":"@ + crate::text::decimal_text(event.location as nat),
    );
    texts_grow(
        p9,
        crate::browser::input::flag_text(event.repeat),
        "\"location\":"@ + crate::text::decimal_text(event.location as nat),
    );
    texts_grow(
        p10,
        ",\"isComposing\":false,\"text\":"@,
        "\"location\":"@ + crate::text::decimal_text(event.location as nat),
    );
    texts_grow(
        p11,
        crate::weburl::json_text(event.text@),
        "\"location\":"@ + crate::text::decimal_text(event.location as nat),
    );
    texts_grow(
        p12,
        ",\"inputText\":"@,
        "\"location\":"@ + crate::text::decimal_text(event.location as nat),
    );
    texts_grow(
        p13,
        crate::weburl::json_text(event.text@),
        "\"location\":"@ + crate::text::decimal_text(event.location as nat),
    );
    texts_grow(
        p14,
        ",\"applyText\":"@,
        "\"location\":"@ + crate::text::decimal_text(event.location as nat),
    );
    texts_grow(
        p15,
        crate::browser::input::flag_text(event.apply_text),
        "\"location\":"@ + crate::text::decimal_text(event.location as nat),
    );
    texts_grow(
        p16,
        "}) : false"@,
        "\"location\":"@ + crate::text::decimal_text(event.location as nat),
    );
    member_ends(
        p8,
        ",\"repeat\":"@,
        "\"repeat\":"@,
        crate::browser::input::flag_text(event.repeat),
    );
    texts_grow(
        p10,
        ",\"isComposing\":false,\"text\":"@,
        "\"repeat\":"@ + crate::browser::input::flag_text(event.repeat),
    );
    texts_grow(
        p11,
        crate::weburl::json_text(event.text@),
        "\"repeat\":"@ + crate::browser::input::flag_text(event.repeat),
    );
    texts_grow(
        p12,
        ",\"inputText\":"@,
        "\"repeat\":"@ + crate::browser::input::flag_text(event.repeat),
    );
    texts_grow(
        p13,
        crate::weburl::json_text(event.text@),
        "\"repeat\":"@ + crate::browser::input::flag_text(event.repeat),
    );
    texts_grow(
        p14,
        ",\"applyText\":"@,
        "\"repeat\":"@ + crate::browser::input::flag_text(event.repeat),
    );
    texts_grow(
        p15,
        crate::browser::input::flag_text(event.apply_text),
        "\"repeat\":"@ + crate::browser::input::flag_text(event.repeat),
    );
    texts_grow(p16, "}) : false"@, "\"repeat\":"@ + crate::browser::input::flag_text(event.repeat));
    member_ends(
        p10,
        ",\"isComposing\":false,\"text\":"@,
        "\"text\":"@,
        crate::weburl::json_text(event.text@),
    );
    texts_grow(p12, ",\"inputText\":"@, "\"text\":"@ + crate::weburl::json_text(event.text@));
    texts_grow(
        p13,
        crate::weburl::json_text(event.text@),
        "\"text\":"@ + crate::weburl::json_text(event.text@),
    );
    texts_grow(p14, ",\"applyText\":"@, "\"text\":"@ + crate::weburl::json_text(event.text@));
    texts_grow(
        p15,
        crate::browser::input::flag_text(event.apply_text),
        "\"text\":"@ + crate::weburl::json_text(event.text@),
    );
    texts_grow(p16, "}) : false"@, "\"text\":"@ + crate::weburl::json_text(event.text@));
    member_ends(p12, ",\"inputText\":"@, "\"inputText\":"@, crate::weburl::json_text(event.text@));
    texts_grow(p14, ",\"applyText\":"@, "\"inputText\":"@ + crate::weburl::json_text(event.text@));
    texts_grow(
        p15,
        crate::browser::input::flag_text(event.apply_text),
        "\"inputText\":"@ + crate::weburl::json_text(event.text@),
    );
    texts_grow(p16, "}) : false"@, "\"inputText\":"@ + crate::weburl::json_text(event.text@));
    member_ends(
        p14,
        ",\"applyText\":"@,
        "\"applyText\":"@,
        crate::browser::input::flag_text(event.apply_text),
    );
    texts_grow(
        p16,
        "}) : false"@,
        "\"applyText\":"@ + crate::browser::input::flag_text(event.apply_text),
    );
    texts_end(
        p7,
        crate::browser::input::modifiers_text(event.modifiers),
        "\"ctrlKey\":"@ + crate::browser::input::flag_text(event.modifiers.ctrl_key),
    );
    texts_grow(
        p8,
        ",\"repeat\":"@,
        "\"ctrlKey\":"@ + crate::browser::input::flag_text(event.modifiers.ctrl_key),
    );
    texts_grow(
        p9,
        crate::browser::input::flag_text(event.repeat),
        "\"ctrlKey\":"@ + crate::browser::input::flag_text(event.modifiers.ctrl_key),
    );
    texts_grow(
        p10,
        ",\"isComposing\":false,\"text\":"@,
        "\"ctrlKey\":"@ + crate::browser::input::flag_text(event.modifiers.ctrl_key),
    );
    texts_grow(
        p11,
        crate::weburl::json_text(event.text@),
        "\"ctrlKey\":"@ + crate::browser::input::flag_text(event.modifiers.ctrl_key),
    );
    texts_grow(
        p12,
        ",\"inputText\":"@,
        "\"ctrlKey\":"@ + crate::browser::input::flag_text(event.modifiers.ctrl_key),
    );
    texts_grow(
        p13,
        crate::weburl::json_text(event.text@),
        "\"ctrlKey\":"@ + crate::browser::input::flag_text(event.modifiers.ctrl_key),
    );
    texts_grow(
        p14,
        ",\"applyText\":"@,
        "\"ctrlKey\":"@ + crate::browser::input::flag_text(event.modifiers.ctrl_key),
    );
    texts_grow(
        p15,
        crate::browser::input::flag_text(event.apply_text),
        "\"ctrlKey\":"@ + crate::browser::input::flag_text(event.modifiers.ctrl_key),
    );
    texts_grow(
        p16,
        "}) : false"@,
        "\"ctrlKey\":"@ + crate::browser::input::flag_text(event.modifiers.ctrl_key),
    );
    texts_end(
        p7,
        crate::browser::input::modifiers_text(event.modifiers),
        "\"shiftKey\":"@ + crate::browser::input::flag_text(event.modifiers.shift_key),
    );
    texts_grow(
        p8,
        ",\"repeat\":"@,
        "\"shiftKey\":"@ + crate::browser::input::flag_text(event.modifiers.shift_key),
    );
    texts_grow(
        p9,
        crate::browser::input::flag_text(event.repeat),
        "\"shiftKey\":"@ + crate::browser::input::flag_text(event.modifiers.shift_key),
    );
    texts_grow(
        p10,
        ",\"isComposing\":false,\"text\":"@,
        "\"shiftKey\":"@ + crate::browser::input::flag_text(event.modifiers.shift_key),
    );
    texts_grow(
        p11,
        crate::weburl::json_text(event.text@),
        "\"shiftKey\":"@ + crate::browser::input::flag_text(event.modifiers.shift_key),
    );
    texts_grow(
        p12,
        ",\"inputText\":"@,
        "\"shiftKey\":"@ + crate::browser::input::flag_text(event.modifiers.shift_key),
    );
    texts_grow(
        p13,
        crate::weburl::json_text(event.text@),
        "\"shiftKey\":"@ + crate::browser::input::flag_text(event.modifiers.shift_key),
    );
    texts_grow(
        p14,
        ",\"applyText\":"@,
        "\"shiftKey\":"@ + crate::browser::input::flag_text(event.modifiers.shift_key),
    );
    texts_grow(
        p15,
        crate::browser::input::flag_text(event.apply_text),
        "\"shiftKey\":"@ + crate::browser::input::flag_text(event.modifiers.shift_key),
    );
    texts_grow(
        p16,
        "}) : false"@,
        "\"shiftKey\":"@ + crate::browser::input::flag_text(event.modifiers.shift_key),
    );
    texts_end(
        p7,
        crate::browser::input::modifiers_text(event.modifiers),
        "\"altKey\":"@ + crate::browser::input::flag_text(event.modifiers.alt_key),
    );
    texts_grow(
        p8,
        ",\"repeat\":"@,
        "\"altKey\":"@ + crate::browser::input::flag_text(event.modifiers.alt_key),
    );
    texts_grow(
        p9,
        crate::browser::input::flag_text(event.repeat),
        "\"altKey\":"@ + crate::browser::input::flag_text(event.modifiers.alt_key),
    );
    texts_grow(
        p10,
        ",\"isComposing\":false,\"text\":"@,
        "\"altKey\":"@ + crate::browser::input::flag_text(event.modifiers.alt_key),
    );
    texts_grow(
        p11,
        crate::weburl::json_text(event.text@),
        "\"altKey\":"@ + crate::browser::input::flag_text(event.modifiers.alt_key),
    );
    texts_grow(
        p12,
        ",\"inputText\":"@,
        "\"altKey\":"@ + crate::browser::input::flag_text(event.modifiers.alt_key),
    );
    texts_grow(
        p13,
        crate::weburl::json_text(event.text@),
        "\"altKey\":"@ + crate::browser::input::flag_text(event.modifiers.alt_key),
    );
    texts_grow(
        p14,
        ",\"applyText\":"@,
        "\"altKey\":"@ + crate::browser::input::flag_text(event.modifiers.alt_key),
    );
    texts_grow(
        p15,
        crate::browser::input::flag_text(event.apply_text),
        "\"altKey\":"@ + crate::browser::input::flag_text(event.modifiers.alt_key),
    );
    texts_grow(
        p16,
        "}) : false"@,
        "\"altKey\":"@ + crate::browser::input::flag_text(event.modifiers.alt_key),
    );
    texts_end(
        p7,
        crate::browser::input::modifiers_text(event.modifiers),
        "\"metaKey\":"@ + crate::browser::input::flag_text(event.modifiers.meta_key),
    );
    texts_grow(
        p8,
        ",\"repeat\":"@,
        "\"metaKey\":"@ + crate::browser::input::flag_text(event.modifiers.meta_key),
    );
    texts_grow(
        p9,
        crate::browser::input::flag_text(event.repeat),
        "\"metaKey\":"@ + crate::browser::input::flag_text(event.modifiers.meta_key),
    );
    texts_grow(
        p10,
        ",\"isComposing\":false,\"text\":"@,
        "\"metaKey\":"@ + crate::browser::input::flag_text(event.modifiers.meta_key),
    );
    texts_grow(
        p11,
        crate::weburl::json_text(event.text@),
        "\"metaKey\":"@ + crate::browser::input::flag_text(event.modifiers.meta_key),
    );
    texts_grow(
        p12,
        ",\"inputText\":"@,
        "\"metaKey\":"@ + crate::browser::input::flag_text(event.modifiers.meta_key),
    );
    texts_grow(
        p13,
        crate::weburl::json_text(event.text@),
        "\"metaKey\":"@ + crate::browser::input::flag_text(event.modifiers.meta_key),
    );
    texts_grow(
        p14,
        ",\"applyText\":"@,
        "\"metaKey\":"@ + crate::browser::input::flag_text(event.modifiers.meta_key),
    );
    texts_grow(
        p15,
        crate::browser::input::flag_text(event.apply_text),
        "\"metaKey\":"@ + crate::browser::input::flag_text(event.modifiers.meta_key),
    );
    texts_grow(
        p16,
        "}) : false"@,
        "\"metaKey\":"@ + crate::browser::input::flag_text(event.modifiers.meta_key),
    );
    reveal_strlit("key");
    reveal_strlit("code");
    reveal_strlit("location");
    reveal_strlit("repeat");
    reveal_strlit("text");
    reveal_strlit("inputText");
    reveal_strlit("applyText");
    reveal_strlit("ctrlKey");
    reveal_strlit("\"ctrlKey\":");
    reveal_strlit("shiftKey");
    reveal_strlit("\"shiftKey\":");
    reveal_strlit("altKey");
    reveal_strlit("\"altKey\":");
    reveal_strlit("metaKey");
    reveal_strlit("\"metaKey\":");
    members_are_said(p17, "\"key\":"@, "key"@, crate::weburl::json_text(event.key@));
    members_are_said(p17, "\"code\":"@, "code"@, crate::weburl::json_text(event.code@));
    members_are_said(
        p17,
        "\"location\":"@,
        "location"@,
        crate::text::decimal_text(event.location as nat),
    );
    members_are_said(
        p17,
        "\"repeat\":"@,
        "repeat"@,
        crate::browser::input::flag_text(event.repeat),
    );
    members_are_said(p17, "\"text\":"@, "text"@, crate::weburl::json_text(event.text@));
    members_are_said(p17, "\"inputText\":"@, "inputText"@, crate::weburl::json_text(event.text@));
    members_are_said(
        p17,
        "\"applyText\":"@,
        "applyText"@,
        crate::browser::input::flag_text(event.apply_text),
    );
    members_are_said(
        p17,
        "\"ctrlKey\":"@,
        "ctrlKey"@,
        crate::browser::input::flag_text(event.modifiers.ctrl_key),
    );
    members_are_said(
        p17,
        "\"shiftKey\":"@,
        "shiftKey"@,
        crate::browser::input::flag_text(event.modifiers.shift_key),
    );
    members_are_said(
        p17,
        "\"altKey\":"@,
        "altKey"@,
        crate::browser::input::flag_text(event.modifiers.alt_key),
    );
    members_are_said(
        p17,
        "\"metaKey\":"@,
        "metaKey"@,
        crate::browser::input::flag_text(event.modifiers.meta_key),
    );
}

/// The script for a mouse event says where it happened, in the page and on the screen.
#[verifier::spinoff_prover]
#[verifier::rlimit(60)]
pub proof fn mouse_events_say_where_they_are(
    node_id: usize,
    event_type: Seq<char>,
    event: MouseEventData,
    numbers: MouseNumbers,
)
    ensures
        ({
            let s = crate::browser::input::mouse_script(node_id, event_type, event, numbers);
            &&& says(s, "bubbles"@, truth(event.bubbles))
            &&& says(s, "clientX"@, numbers.x@)
            &&& says(s, "clientY"@, numbers.y@)
            &&& says(s, "screenX"@, numbers.x@)
            &&& says(s, "screenY"@, numbers.y@)
        }),
{
    let related = match event.related_node_id {
        Some(n) => Some(n as u64),
        None => None,
    };
    reveal_strlit(", ");
    reveal_strlit(", {\"bubbles\":");
    reveal_strlit(",\"button\":");
    reveal_strlit(",\"buttons\":");
    reveal_strlit(",\"clientX\":");
    reveal_strlit(",\"clientY\":");
    reveal_strlit(",\"deltaX\":");
    reveal_strlit(",\"deltaY\":");
    reveal_strlit(",\"deltaZ\":0,\"deltaMode\":0}) : false");
    reveal_strlit(",\"detail\":");
    reveal_strlit(",\"relatedNodeId\":");
    reveal_strlit(",\"screenX\":");
    reveal_strlit(",\"screenY\":");
    reveal_strlit("globalThis.__vixenDispatchMouseEvent ? globalThis.__vixenDispatchMouseEvent(");
    reveal_strlit("\"bubbles\":");
    reveal_strlit("\"clientX\":");
    reveal_strlit("\"clientY\":");
    reveal_strlit("\"screenX\":");
    reveal_strlit("\"screenY\":");
    assert(", {\"bubbles\":"@.skip(3) =~= "\"bubbles\":"@);
    assert(", {\"bubbles\":"@.len() == 13 && "\"bubbles\":"@.len() == 10);
    assert(",\"clientX\":"@.skip(1) =~= "\"clientX\":"@);
    assert(",\"clientX\":"@.len() == 11 && "\"clientX\":"@.len() == 10);
    assert(",\"clientY\":"@.skip(1) =~= "\"clientY\":"@);
    assert(",\"clientY\":"@.len() == 11 && "\"clientY\":"@.len() == 10);
    assert(",\"screenX\":"@.skip(1) =~= "\"screenX\":"@);
    assert(",\"screenX\":"@.len() == 11 && "\"screenX\":"@.len() == 10);
    assert(",\"screenY\":"@.skip(1) =~= "\"screenY\":"@);
    assert(",\"screenY\":"@.len() == 11 && "\"screenY\":"@.len() == 10);
    let p0 = "globalThis.__vixenDispatchMouseEvent ? globalThis.__vixenDispatchMouseEvent("@;
    let p1 = p0 + crate::text::decimal_text(node_id as nat);
    let p2 = p1 + ", "@;
    let p3 = p2 + crate::weburl::json_text(event_type);
    let p4 = p3 + ", {\"bubbles\":"@;
    let p5 = p4 + crate::browser::input::flag_text(event.bubbles);
    let p6 = p5 + ",\"clientX\":"@;
    let p7 = p6 + numbers.x@;
    let p8 = p7 + ",\"clientY\":"@;
    let p9 = p8 + numbers.y@;
    let p10 = p9 + ",\"screenX\":"@;
    let p11 = p10 + numbers.x@;
    let p12 = p11 + ",\"screenY\":"@;
    let p13 = p12 + numbers.y@;
    let p14 = p13 + ",\"button\":"@;
    let p15 = p14 + crate::text::integer_text(event.button as int);
    let p16 = p15 + ",\"buttons\":"@;
    let p17 = p16 + crate::text::decimal_text(event.buttons as nat);
    let p18 = p17 + ",\"detail\":"@;
    let p19 = p18 + crate::text::decimal_text(event.detail as nat);
    let p20 = p19 + ",\"relatedNodeId\":"@;
    let p21 = p20 + crate::browser::input::optional_text(related);
    let p22 = p21 + crate::browser::input::modifiers_text(event.modifiers);
    let p23 = p22 + ",\"deltaX\":"@;
    let p24 = p23 + numbers.delta_x@;
    let p25 = p24 + ",\"deltaY\":"@;
    let p26 = p25 + numbers.delta_y@;
    let p27 = p26 + ",\"deltaZ\":0,\"deltaMode\":0}) : false"@;
    member_ends(
        p3,
        ", {\"bubbles\":"@,
        "\"bubbles\":"@,
        crate::browser::input::flag_text(event.bubbles),
    );
    texts_grow(
        p5,
        ",\"clientX\":"@,
        "\"bubbles\":"@ + crate::browser::input::flag_text(event.bubbles),
    );
    texts_grow(p6, numbers.x@, "\"bubbles\":"@ + crate::browser::input::flag_text(event.bubbles));
    texts_grow(
        p7,
        ",\"clientY\":"@,
        "\"bubbles\":"@ + crate::browser::input::flag_text(event.bubbles),
    );
    texts_grow(p8, numbers.y@, "\"bubbles\":"@ + crate::browser::input::flag_text(event.bubbles));
    texts_grow(
        p9,
        ",\"screenX\":"@,
        "\"bubbles\":"@ + crate::browser::input::flag_text(event.bubbles),
    );
    texts_grow(p10, numbers.x@, "\"bubbles\":"@ + crate::browser::input::flag_text(event.bubbles));
    texts_grow(
        p11,
        ",\"screenY\":"@,
        "\"bubbles\":"@ + crate::browser::input::flag_text(event.bubbles),
    );
    texts_grow(p12, numbers.y@, "\"bubbles\":"@ + crate::browser::input::flag_text(event.bubbles));
    texts_grow(
        p13,
        ",\"button\":"@,
        "\"bubbles\":"@ + crate::browser::input::flag_text(event.bubbles),
    );
    texts_grow(
        p14,
        crate::text::integer_text(event.button as int),
        "\"bubbles\":"@ + crate::browser::input::flag_text(event.bubbles),
    );
    texts_grow(
        p15,
        ",\"buttons\":"@,
        "\"bubbles\":"@ + crate::browser::input::flag_text(event.bubbles),
    );
    texts_grow(
        p16,
        crate::text::decimal_text(event.buttons as nat),
        "\"bubbles\":"@ + crate::browser::input::flag_text(event.bubbles),
    );
    texts_grow(
        p17,
        ",\"detail\":"@,
        "\"bubbles\":"@ + crate::browser::input::flag_text(event.bubbles),
    );
    texts_grow(
        p18,
        crate::text::decimal_text(event.detail as nat),
        "\"bubbles\":"@ + crate::browser::input::flag_text(event.bubbles),
    );
    texts_grow(
        p19,
        ",\"relatedNodeId\":"@,
        "\"bubbles\":"@ + crate::browser::input::flag_text(event.bubbles),
    );
    texts_grow(
        p20,
        crate::browser::input::optional_text(related),
        "\"bubbles\":"@ + crate::browser::input::flag_text(event.bubbles),
    );
    texts_grow(
        p21,
        crate::browser::input::modifiers_text(event.modifiers),
        "\"bubbles\":"@ + crate::browser::input::flag_text(event.bubbles),
    );
    texts_grow(
        p22,
        ",\"deltaX\":"@,
        "\"bubbles\":"@ + crate::browser::input::flag_text(event.bubbles),
    );
    texts_grow(
        p23,
        numbers.delta_x@,
        "\"bubbles\":"@ + crate::browser::input::flag_text(event.bubbles),
    );
    texts_grow(
        p24,
        ",\"deltaY\":"@,
        "\"bubbles\":"@ + crate::browser::input::flag_text(event.bubbles),
    );
    texts_grow(
        p25,
        numbers.delta_y@,
        "\"bubbles\":"@ + crate::browser::input::flag_text(event.bubbles),
    );
    texts_grow(
        p26,
        ",\"deltaZ\":0,\"deltaMode\":0}) : false"@,
        "\"bubbles\":"@ + crate::browser::input::flag_text(event.bubbles),
    );
    member_ends(p5, ",\"clientX\":"@, "\"clientX\":"@, numbers.x@);
    texts_grow(p7, ",\"clientY\":"@, "\"clientX\":"@ + numbers.x@);
    texts_grow(p8, numbers.y@, "\"clientX\":"@ + numbers.x@);
    texts_grow(p9, ",\"screenX\":"@, "\"clientX\":"@ + numbers.x@);
    texts_grow(p10, numbers.x@, "\"clientX\":"@ + numbers.x@);
    texts_grow(p11, ",\"screenY\":"@, "\"clientX\":"@ + numbers.x@);
    texts_grow(p12, numbers.y@, "\"clientX\":"@ + numbers.x@);
    texts_grow(p13, ",\"button\":"@, "\"clientX\":"@ + numbers.x@);
    texts_grow(p14, crate::text::integer_text(event.button as int), "\"clientX\":"@ + numbers.x@);
    texts_grow(p15, ",\"buttons\":"@, "\"clientX\":"@ + numbers.x@);
    texts_grow(p16, crate::text::decimal_text(event.buttons as nat), "\"clientX\":"@ + numbers.x@);
    texts_grow(p17, ",\"detail\":"@, "\"clientX\":"@ + numbers.x@);
    texts_grow(p18, crate::text::decimal_text(event.detail as nat), "\"clientX\":"@ + numbers.x@);
    texts_grow(p19, ",\"relatedNodeId\":"@, "\"clientX\":"@ + numbers.x@);
    texts_grow(p20, crate::browser::input::optional_text(related), "\"clientX\":"@ + numbers.x@);
    texts_grow(
        p21,
        crate::browser::input::modifiers_text(event.modifiers),
        "\"clientX\":"@ + numbers.x@,
    );
    texts_grow(p22, ",\"deltaX\":"@, "\"clientX\":"@ + numbers.x@);
    texts_grow(p23, numbers.delta_x@, "\"clientX\":"@ + numbers.x@);
    texts_grow(p24, ",\"deltaY\":"@, "\"clientX\":"@ + numbers.x@);
    texts_grow(p25, numbers.delta_y@, "\"clientX\":"@ + numbers.x@);
    texts_grow(p26, ",\"deltaZ\":0,\"deltaMode\":0}) : false"@, "\"clientX\":"@ + numbers.x@);
    member_ends(p7, ",\"clientY\":"@, "\"clientY\":"@, numbers.y@);
    texts_grow(p9, ",\"screenX\":"@, "\"clientY\":"@ + numbers.y@);
    texts_grow(p10, numbers.x@, "\"clientY\":"@ + numbers.y@);
    texts_grow(p11, ",\"screenY\":"@, "\"clientY\":"@ + numbers.y@);
    texts_grow(p12, numbers.y@, "\"clientY\":"@ + numbers.y@);
    texts_grow(p13, ",\"button\":"@, "\"clientY\":"@ + numbers.y@);
    texts_grow(p14, crate::text::integer_text(event.button as int), "\"clientY\":"@ + numbers.y@);
    texts_grow(p15, ",\"buttons\":"@, "\"clientY\":"@ + numbers.y@);
    texts_grow(p16, crate::text::decimal_text(event.buttons as nat), "\"clientY\":"@ + numbers.y@);
    texts_grow(p17, ",\"detail\":"@, "\"clientY\":"@ + numbers.y@);
    texts_grow(p18, crate::text::decimal_text(event.detail as nat), "\"clientY\":"@ + numbers.y@);
    texts_grow(p19, ",\"relatedNodeId\":"@, "\"clientY\":"@ + numbers.y@);
    texts_grow(p20, crate::browser::input::optional_text(related), "\"clientY\":"@ + numbers.y@);
    texts_grow(
        p21,
        crate::browser::input::modifiers_text(event.modifiers),
        "\"clientY\":"@ + numbers.y@,
    );
    texts_grow(p22, ",\"deltaX\":"@, "\"clientY\":"@ + numbers.y@);
    texts_grow(p23, numbers.delta_x@, "\"clientY\":"@ + numbers.y@);
    texts_grow(p24, ",\"deltaY\":"@, "\"clientY\":"@ + numbers.y@);
    texts_grow(p25, numbers.delta_y@, "\"clientY\":"@ + numbers.y@);
    texts_grow(p26, ",\"deltaZ\":0,\"deltaMode\":0}) : false"@, "\"clientY\":"@ + numbers.y@);
    member_ends(p9, ",\"screenX\":"@, "\"screenX\":"@, numbers.x@);
    texts_grow(p11, ",\"screenY\":"@, "\"screenX\":"@ + numbers.x@);
    texts_grow(p12, numbers.y@, "\"screenX\":"@ + numbers.x@);
    texts_grow(p13, ",\"button\":"@, "\"screenX\":"@ + numbers.x@);
    texts_grow(p14, crate::text::integer_text(event.button as int), "\"screenX\":"@ + numbers.x@);
    texts_grow(p15, ",\"buttons\":"@, "\"screenX\":"@ + numbers.x@);
    texts_grow(p16, crate::text::decimal_text(event.buttons as nat), "\"screenX\":"@ + numbers.x@);
    texts_grow(p17, ",\"detail\":"@, "\"screenX\":"@ + numbers.x@);
    texts_grow(p18, crate::text::decimal_text(event.detail as nat), "\"screenX\":"@ + numbers.x@);
    texts_grow(p19, ",\"relatedNodeId\":"@, "\"screenX\":"@ + numbers.x@);
    texts_grow(p20, crate::browser::input::optional_text(related), "\"screenX\":"@ + numbers.x@);
    texts_grow(
        p21,
        crate::browser::input::modifiers_text(event.modifiers),
        "\"screenX\":"@ + numbers.x@,
    );
    texts_grow(p22, ",\"deltaX\":"@, "\"screenX\":"@ + numbers.x@);
    texts_grow(p23, numbers.delta_x@, "\"screenX\":"@ + numbers.x@);
    texts_grow(p24, ",\"deltaY\":"@, "\"screenX\":"@ + numbers.x@);
    texts_grow(p25, numbers.delta_y@, "\"screenX\":"@ + numbers.x@);
    texts_grow(p26, ",\"deltaZ\":0,\"deltaMode\":0}) : false"@, "\"screenX\":"@ + numbers.x@);
    member_ends(p11, ",\"screenY\":"@, "\"screenY\":"@, numbers.y@);
    texts_grow(p13, ",\"button\":"@, "\"screenY\":"@ + numbers.y@);
    texts_grow(p14, crate::text::integer_text(event.button as int), "\"screenY\":"@ + numbers.y@);
    texts_grow(p15, ",\"buttons\":"@, "\"screenY\":"@ + numbers.y@);
    texts_grow(p16, crate::text::decimal_text(event.buttons as nat), "\"screenY\":"@ + numbers.y@);
    texts_grow(p17, ",\"detail\":"@, "\"screenY\":"@ + numbers.y@);
    texts_grow(p18, crate::text::decimal_text(event.detail as nat), "\"screenY\":"@ + numbers.y@);
    texts_grow(p19, ",\"relatedNodeId\":"@, "\"screenY\":"@ + numbers.y@);
    texts_grow(p20, crate::browser::input::optional_text(related), "\"screenY\":"@ + numbers.y@);
    texts_grow(
        p21,
        crate::browser::input::modifiers_text(event.modifiers),
        "\"screenY\":"@ + numbers.y@,
    );
    texts_grow(p22, ",\"deltaX\":"@, "\"screenY\":"@ + numbers.y@);
    texts_grow(p23, numbers.delta_x@, "\"screenY\":"@ + numbers.y@);
    texts_grow(p24, ",\"deltaY\":"@, "\"screenY\":"@ + numbers.y@);
    texts_grow(p25, numbers.delta_y@, "\"screenY\":"@ + numbers.y@);
    texts_grow(p26, ",\"deltaZ\":0,\"deltaMode\":0}) : false"@, "\"screenY\":"@ + numbers.y@);
    reveal_strlit("bubbles");
    reveal_strlit("clientX");
    reveal_strlit("clientY");
    reveal_strlit("screenX");
    reveal_strlit("screenY");
    members_are_said(
        p27,
        "\"bubbles\":"@,
        "bubbles"@,
        crate::browser::input::flag_text(event.bubbles),
    );
    members_are_said(p27, "\"clientX\":"@, "clientX"@, numbers.x@);
    members_are_said(p27, "\"clientY\":"@, "clientY"@, numbers.y@);
    members_are_said(p27, "\"screenX\":"@, "screenX"@, numbers.x@);
    members_are_said(p27, "\"screenY\":"@, "screenY"@, numbers.y@);
}

/// The script for a mouse event says which buttons are held, how often one was clicked,
/// which node the pointer came from, and how far the wheel turned.
#[verifier::spinoff_prover]
#[verifier::rlimit(60)]
pub proof fn mouse_events_name_their_buttons(
    node_id: usize,
    event_type: Seq<char>,
    event: MouseEventData,
    numbers: MouseNumbers,
)
    ensures
        ({
            let s = crate::browser::input::mouse_script(node_id, event_type, event, numbers);
            &&& says(s, "button"@, crate::text::integer_text(event.button as int))
            &&& says(s, "buttons"@, crate::text::decimal_text(event.buttons as nat))
            &&& says(s, "detail"@, crate::text::decimal_text(event.detail as nat))
            &&& says(s, "relatedNodeId"@, match event.related_node_id {
                    Some(n) => crate::text::decimal_text(n as nat),
                    None => "null"@,
                })
            &&& says(s, "deltaX"@, numbers.delta_x@)
            &&& says(s, "deltaY"@, numbers.delta_y@)
        }),
{
    let related = match event.related_node_id {
        Some(n) => Some(n as u64),
        None => None,
    };
    reveal_strlit(", ");
    reveal_strlit(", {\"bubbles\":");
    reveal_strlit(",\"button\":");
    reveal_strlit(",\"buttons\":");
    reveal_strlit(",\"clientX\":");
    reveal_strlit(",\"clientY\":");
    reveal_strlit(",\"deltaX\":");
    reveal_strlit(",\"deltaY\":");
    reveal_strlit(",\"deltaZ\":0,\"deltaMode\":0}) : false");
    reveal_strlit(",\"detail\":");
    reveal_strlit(",\"relatedNodeId\":");
    reveal_strlit(",\"screenX\":");
    reveal_strlit(",\"screenY\":");
    reveal_strlit("globalThis.__vixenDispatchMouseEvent ? globalThis.__vixenDispatchMouseEvent(");
    reveal_strlit("\"button\":");
    reveal_strlit("\"buttons\":");
    reveal_strlit("\"detail\":");
    reveal_strlit("\"relatedNodeId\":");
    reveal_strlit("\"deltaX\":");
    reveal_strlit("\"deltaY\":");
    assert(",\"button\":"@.skip(1) =~= "\"button\":"@);
    assert(",\"button\":"@.len() == 10 && "\"button\":"@.len() == 9);
    assert(",\"buttons\":"@.skip(1) =~= "\"buttons\":"@);
    assert(",\"buttons\":"@.len() == 11 && "\"buttons\":"@.len() == 10);
    assert(",\"detail\":"@.skip(1) =~= "\"detail\":"@);
    assert(",\"detail\":"@.len() == 10 && "\"detail\":"@.len() == 9);
    assert(",\"relatedNodeId\":"@.skip(1) =~= "\"relatedNodeId\":"@);
    assert(",\"relatedNodeId\":"@.len() == 17 && "\"relatedNodeId\":"@.len() == 16);
    assert(",\"deltaX\":"@.skip(1) =~= "\"deltaX\":"@);
    assert(",\"deltaX\":"@.len() == 10 && "\"deltaX\":"@.len() == 9);
    assert(",\"deltaY\":"@.skip(1) =~= "\"deltaY\":"@);
    assert(",\"deltaY\":"@.len() == 10 && "\"deltaY\":"@.len() == 9);
    let p0 = "globalThis.__vixenDispatchMouseEvent ? globalThis.__vixenDispatchMouseEvent("@;
    let p1 = p0 + crate::text::decimal_text(node_id as nat);
    let p2 = p1 + ", "@;
    let p3 = p2 + crate::weburl::json_text(event_type);
    let p4 = p3 + ", {\"bubbles\":"@;
    let p5 = p4 + crate::browser::input::flag_text(event.bubbles);
    let p6 = p5 + ",\"clientX\":"@;
    let p7 = p6 + numbers.x@;
    let p8 = p7 + ",\"clientY\":"@;
    let p9 = p8 + numbers.y@;
    let p10 = p9 + ",\"screenX\":"@;
    let p11 = p10 + numbers.x@;
    let p12 = p11 + ",\"screenY\":"@;
    let p13 = p12 + numbers.y@;
    let p14 = p13 + ",\"button\":"@;
    let p15 = p14 + crate::text::integer_text(event.button as int);
    let p16 = p15 + ",\"buttons\":"@;
    let p17 = p16 + crate::text::decimal_text(event.buttons as nat);
    let p18 = p17 + ",\"detail\":"@;
    let p19 = p18 + crate::text::decimal_text(event.detail as nat);
    let p20 = p19 + ",\"relatedNodeId\":"@;
    let p21 = p20 + crate::browser::input::optional_text(related);
    let p22 = p21 + crate::browser::input::modifiers_text(event.modifiers);
    let p23 = p22 + ",\"deltaX\":"@;
    let p24 = p23 + numbers.delta_x@;
    let p25 = p24 + ",\"deltaY\":"@;
    let p26 = p25 + numbers.delta_y@;
    let p27 = p26 + ",\"deltaZ\":0,\"deltaMode\":0}) : false"@;
    member_ends(
        p13,
        ",\"button\":"@,
        "\"button\":"@,
        crate::text::integer_text(event.button as int),
    );
    texts_grow(
        p15,
        ",\"buttons\":"@,
        "\"button\":"@ + crate::text::integer_text(event.button as int),
    );
    texts_grow(
        p16,
        crate::text::decimal_text(event.buttons as nat),
        "\"button\":"@ + crate::text::integer_text(event.button as int),
    );
    texts_grow(
        p17,
        ",\"detail\":"@,
        "\"button\":"@ + crate::text::integer_text(event.button as int),
    );
    texts_grow(
        p18,
        crate::text::decimal_text(event.detail as nat),
        "\"button\":"@ + crate::text::integer_text(event.button as int),
    );
    texts_grow(
        p19,
        ",\"relatedNodeId\":"@,
        "\"button\":"@ + crate::text::integer_text(event.button as int),
    );
    texts_grow(
        p20,
        crate::browser::input::optional_text(related),
        "\"button\":"@ + crate::text::integer_text(event.button as int),
    );
    texts_grow(
        p21,
        crate::browser::input::modifiers_text(event.modifiers),
        "\"button\":"@ + crate::text::integer_text(event.button as int),
    );
    texts_grow(
        p22,
        ",\"deltaX\":"@,
        "\"button\":"@ + crate::text::integer_text(event.button as int),
    );
    texts_grow(
        p23,
        numbers.delta_x@,
        "\"button\":"@ + crate::text::integer_text(event.button as int),
    );
    texts_grow(
        p24,
        ",\"deltaY\":"@,
        "\"button\":"@ + crate::text::integer_text(event.button as int),
    );
    texts_grow(
        p25,
        numbers.delta_y@,
        "\"button\":"@ + crate::text::integer_text(event.button as int),
    );
    texts_grow(
        p26,
        ",\"deltaZ\":0,\"deltaMode\":0}) : false"@,
        "\"button\":"@ + crate::text::integer_text(event.button as int),
    );
    member_ends(
        p15,
        ",\"buttons\":"@,
        "\"buttons\":"@,
        crate::text::decimal_text(event.buttons as nat),
    );
    texts_grow(
        p17,
        ",\"detail\":"@,
        "\"buttons\":"@ + crate::text::decimal_text(event.buttons as nat),
    );
    texts_grow(
        p18,
        crate::text::decimal_text(event.detail as nat),
        "\"buttons\":"@ + crate::text::decimal_text(event.buttons as nat),
    );
    texts_grow(
        p19,
        ",\"relatedNodeId\":"@,
        "\"buttons\":"@ + crate::text::decimal_text(event.buttons as nat),
    );
    texts_grow(
        p20,
        crate::browser::input::optional_text(related),
        "\"buttons\":"@ + crate::text::decimal_text(event.buttons as nat),
    );
    texts_grow(
        p21,
        crate::browser::input::modifiers_text(event.modifiers),
        "\"buttons\":"@ + crate::text::decimal_text(event.buttons as nat),
    );
    texts_grow(
        p22,
        ",\"deltaX\":"@,
        "\"buttons\":"@ + crate::text::decimal_text(event.buttons as nat),
    );
    texts_grow(
        p23,
        numbers.delta_x@,
        "\"buttons\":"@ + crate::text::decimal_text(event.buttons as nat),
    );
    texts_grow(
        p24,
        ",\"deltaY\":"@,
        "\"buttons\":"@ + crate::text::decimal_text(event.buttons as nat),
    );
    texts_grow(
        p25,
        numbers.delta_y@,
        "\"buttons\":"@ + crate::text::decimal_text(event.buttons as nat),
    );
    texts_grow(
        p26,
        ",\"deltaZ\":0,\"deltaMode\":0}) : false"@,
        "\"buttons\":"@ + crate::text::decimal_text(event.buttons as nat),
    );
    member_ends(
        p17,
        ",\"detail\":"@,
        "\"detail\":"@,
        crate::text::decimal_text(event.detail as nat),
    );
    texts_grow(
        p19,
        ",\"relatedNodeId\":"@,
        "\"detail\":"@ + crate::text::decimal_text(event.detail as nat),
    );
    texts_grow(
        p20,
        crate::browser::input::optional_text(related),
        "\"detail\":"@ + crate::text::decimal_text(event.detail as nat),
    );
    texts_grow(
        p21,
        crate::browser::input::modifiers_text(event.modifiers),
        "\"detail\":"@ + crate::text::decimal_text(event.detail as nat),
    );
    texts_grow(
        p22,
        ",\"deltaX\":"@,
        "\"detail\":"@ + crate::text::decimal_text(event.detail as nat),
    );
    texts_grow(
        p23,
        numbers.delta_x@,
        "\"detail\":"@ + crate::text::decimal_text(event.detail as nat),
    );
    texts_grow(
        p24,
        ",\"deltaY\":"@,
        "\"detail\":"@ + crate::text::decimal_text(event.detail as nat),
    );
    texts_grow(
        p25,
        numbers.delta_y@,
        "\"detail\":"@ + crate::text::decimal_text(event.detail as nat),
    );
    texts_grow(
        p26,
        ",\"deltaZ\":0,\"deltaMode\":0}) : false"@,
        "\"detail\":"@ + crate::text::decimal_text(event.detail as nat),
    );
    member_ends(
        p19,
        ",\"relatedNodeId\":"@,
        "\"relatedNodeId\":"@,
        crate::browser::input::optional_text(related),
    );
    texts_grow(
        p21,
        crate::browser::input::modifiers_text(event.modifiers),
        "\"relatedNodeId\":"@ + crate::browser::input::optional_text(related),
    );
    texts_grow(
        p22,
        ",\"deltaX\":"@,
        "\"relatedNodeId\":"@ + crate::browser::input::optional_text(related),
    );
    texts_grow(
        p23,
        numbers.delta_x@,
        "\"relatedNodeId\":"@ + crate::browser::input::optional_text(related),
    );
    texts_grow(
        p24,
        ",\"deltaY\":"@,
        "\"relatedNodeId\":"@ + crate::browser::input::optional_text(related),
    );
    texts_grow(
        p25,
        numbers.delta_y@,
        "\"relatedNodeId\":"@ + crate::browser::input::optional_text(related),
    );
    texts_grow(
        p26,
        ",\"deltaZ\":0,\"deltaMode\":0}) : false"@,
        "\"relatedNodeId\":"@ + crate::browser::input::optional_text(related),
    );
    member_ends(p22, ",\"deltaX\":"@, "\"deltaX\":"@, numbers.delta_x@);
    texts_grow(p24, ",\"deltaY\":"@, "\"deltaX\":"@ + numbers.delta_x@);
    texts_grow(p25, numbers.delta_y@, "\"deltaX\":"@ + numbers.delta_x@);
    texts_grow(p26, ",\"deltaZ\":0,\"deltaMode\":0}) : false"@, "\"deltaX\":"@ + numbers.delta_x@);
    member_ends(p24, ",\"deltaY\":"@, "\"deltaY\":"@, numbers.delta_y@);
    texts_grow(p26, ",\"deltaZ\":0,\"deltaMode\":0}) : false"@, "\"deltaY\":"@ + numbers.delta_y@);
    reveal_strlit("button");
    reveal_strlit("buttons");
    reveal_strlit("detail");
    reveal_strlit("relatedNodeId");
    reveal_strlit("deltaX");
    reveal_strlit("deltaY");
    members_are_said(
        p27,
        "\"button\":"@,
        "button"@,
        crate::text::integer_text(event.button as int),
    );
    members_are_said(
        p27,
        "\"buttons\":"@,
        "buttons"@,
        crate::text::decimal_text(event.buttons as nat),
    );
    members_are_said(
        p27,
        "\"detail\":"@,
        "detail"@,
        crate::text::decimal_text(event.detail as nat),
    );
    members_are_said(
        p27,
        "\"relatedNodeId\":"@,
        "relatedNodeId"@,
        crate::browser::input::optional_text(related),
    );
    members_are_said(p27, "\"deltaX\":"@, "deltaX"@, numbers.delta_x@);
    members_are_said(p27, "\"deltaY\":"@, "deltaY"@, numbers.delta_y@);
}

/// The script for a mouse event says which modifier keys are held.
#[verifier::spinoff_prover]
#[verifier::rlimit(60)]
pub proof fn mouse_events_name_the_modifiers(
    node_id: usize,
    event_type: Seq<char>,
    event: MouseEventData,
    numbers: MouseNumbers,
)
    ensures
        ({
            let s = crate::browser::input::mouse_script(node_id, event_type, event, numbers);
            &&& says(s, "ctrlKey"@, truth(event.modifiers.ctrl_key))
            &&& says(s, "shiftKey"@, truth(event.modifiers.shift_key))
            &&& says(s, "altKey"@, truth(event.modifiers.alt_key))
            &&& says(s, "metaKey"@, truth(event.modifiers.meta_key))
        }),
{
    modifiers_are_held(event.modifiers);
    let related = match event.related_node_id {
        Some(n) => Some(n as u64),
        None => None,
    };
    reveal_strlit(", ");
    reveal_strlit(", {\"bubbles\":");
    reveal_strlit(",\"button\":");
    reveal_strlit(",\"buttons\":");
    reveal_strlit(",\"clientX\":");
    reveal_strlit(",\"clientY\":");
    reveal_strlit(",\"deltaX\":");
    reveal_strlit(",\"deltaY\":");
    reveal_strlit(",\"deltaZ\":0,\"deltaMode\":0}) : false");
    reveal_strlit(",\"detail\":");
    reveal_strlit(",\"relatedNodeId\":");
    reveal_strlit(",\"screenX\":");
    reveal_strlit(",\"screenY\":");
    reveal_strlit("globalThis.__vixenDispatchMouseEvent ? globalThis.__vixenDispatchMouseEvent(");

    let p0 = "globalThis.__vixenDispatchMouseEvent ? globalThis.__vixenDispatchMouseEvent("@;
    let p1 = p0 + crate::text::decimal_text(node_id as nat);
    let p2 = p1 + ", "@;
    let p3 = p2 + crate::weburl::json_text(event_type);
    let p4 = p3 + ", {\"bubbles\":"@;
    let p5 = p4 + crate::browser::input::flag_text(event.bubbles);
    let p6 = p5 + ",\"clientX\":"@;
    let p7 = p6 + numbers.x@;
    let p8 = p7 + ",\"clientY\":"@;
    let p9 = p8 + numbers.y@;
    let p10 = p9 + ",\"screenX\":"@;
    let p11 = p10 + numbers.x@;
    let p12 = p11 + ",\"screenY\":"@;
    let p13 = p12 + numbers.y@;
    let p14 = p13 + ",\"button\":"@;
    let p15 = p14 + crate::text::integer_text(event.button as int);
    let p16 = p15 + ",\"buttons\":"@;
    let p17 = p16 + crate::text::decimal_text(event.buttons as nat);
    let p18 = p17 + ",\"detail\":"@;
    let p19 = p18 + crate::text::decimal_text(event.detail as nat);
    let p20 = p19 + ",\"relatedNodeId\":"@;
    let p21 = p20 + crate::browser::input::optional_text(related);
    let p22 = p21 + crate::browser::input::modifiers_text(event.modifiers);
    let p23 = p22 + ",\"deltaX\":"@;
    let p24 = p23 + numbers.delta_x@;
    let p25 = p24 + ",\"deltaY\":"@;
    let p26 = p25 + numbers.delta_y@;
    let p27 = p26 + ",\"deltaZ\":0,\"deltaMode\":0}) : false"@;
    texts_end(
        p21,
        crate::browser::input::modifiers_text(event.modifiers),
        "\"ctrlKey\":"@ + crate::browser::input::flag_text(event.modifiers.ctrl_key),
    );
    texts_grow(
        p22,
        ",\"deltaX\":"@,
        "\"ctrlKey\":"@ + crate::browser::input::flag_text(event.modifiers.ctrl_key),
    );
    texts_grow(
        p23,
        numbers.delta_x@,
        "\"ctrlKey\":"@ + crate::browser::input::flag_text(event.modifiers.ctrl_key),
    );
    texts_grow(
        p24,
        ",\"deltaY\":"@,
        "\"ctrlKey\":"@ + crate::browser::input::flag_text(event.modifiers.ctrl_key),
    );
    texts_grow(
        p25,
        numbers.delta_y@,
        "\"ctrlKey\":"@ + crate::browser::input::flag_text(event.modifiers.ctrl_key),
    );
    texts_grow(
        p26,
        ",\"deltaZ\":0,\"deltaMode\":0}) : false"@,
        "\"ctrlKey\":"@ + crate::browser::input::flag_text(event.modifiers.ctrl_key),
    );
    texts_end(
        p21,
        crate::browser::input::modifiers_text(event.modifiers),
        "\"shiftKey\":"@ + crate::browser::input::flag_text(event.modifiers.shift_key),
    );
    texts_grow(
        p22,
        ",\"deltaX\":"@,
        "\"shiftKey\":"@ + crate::browser::input::flag_text(event.modifiers.shift_key),
    );
    texts_grow(
        p23,
        numbers.delta_x@,
        "\"shiftKey\":"@ + crate::browser::input::flag_text(event.modifiers.shift_key),
    );
    texts_grow(
        p24,
        ",\"deltaY\":"@,
        "\"shiftKey\":"@ + crate::browser::input::flag_text(event.modifiers.shift_key),
    );
    texts_grow(
        p25,
        numbers.delta_y@,
        "\"shiftKey\":"@ + crate::browser::input::flag_text(event.modifiers.shift_key),
    );
    texts_grow(
        p26,
        ",\"deltaZ\":0,\"deltaMode\":0}) : false"@,
        "\"shiftKey\":"@ + crate::browser::input::flag_text(event.modifiers.shift_key),
    );
    texts_end(
        p21,
        crate::browser::input::modifiers_text(event.modifiers),
        "\"altKey\":"@ + crate::browser::input::flag_text(event.modifiers.alt_key),
    );
    texts_grow(
        p22,
        ",\"deltaX\":"@,
        "\"altKey\":"@ + crate::browser::input::flag_text(event.modifiers.alt_key),
    );
    texts_grow(
        p23,
        numbers.delta_x@,
        "\"altKey\":"@ + crate::browser::input::flag_text(event.modifiers.alt_key),
    );
    texts_grow(
        p24,
        ",\"deltaY\":"@,
        "\"altKey\":"@ + crate::browser::input::flag_text(event.modifiers.alt_key),
    );
    texts_grow(
        p25,
        numbers.delta_y@,
        "\"altKey\":"@ + crate::browser::input::flag_text(event.modifiers.alt_key),
    );
    texts_grow(
        p26,
        ",\"deltaZ\":0,\"deltaMode\":0}) : false"@,
        "\"altKey\":"@ + crate::browser::input::flag_text(event.modifiers.alt_key),
    );
    texts_end(
        p21,
        crate::browser::input::modifiers_text(event.modifiers),
        "\"metaKey\":"@ + crate::browser::input::flag_text(event.modifiers.meta_key),
    );
    texts_grow(
        p22,
        ",\"deltaX\":"@,
        "\"metaKey\":"@ + crate::browser::input::flag_text(event.modifiers.meta_key),
    );
    texts_grow(
        p23,
        numbers.delta_x@,
        "\"metaKey\":"@ + crate::browser::input::flag_text(event.modifiers.meta_key),
    );
    texts_grow(
        p24,
        ",\"deltaY\":"@,
        "\"metaKey\":"@ + crate::browser::input::flag_text(event.modifiers.meta_key),
    );
    texts_grow(
        p25,
        numbers.delta_y@,
        "\"metaKey\":"@ + crate::browser::input::flag_text(event.modifiers.meta_key),
    );
    texts_grow(
        p26,
        ",\"deltaZ\":0,\"deltaMode\":0}) : false"@,
        "\"metaKey\":"@ + crate::browser::input::flag_text(event.modifiers.meta_key),
    );
    reveal_strlit("ctrlKey");
    reveal_strlit("\"ctrlKey\":");
    reveal_strlit("shiftKey");
    reveal_strlit("\"shiftKey\":");
    reveal_strlit("altKey");
    reveal_strlit("\"altKey\":");
    reveal_strlit("metaKey");
    reveal_strlit("\"metaKey\":");
    members_are_said(
        p27,
        "\"ctrlKey\":"@,
        "ctrlKey"@,
        crate::browser::input::flag_text(event.modifiers.ctrl_key),
    );
    members_are_said(
        p27,
        "\"shiftKey\":"@,
        "shiftKey"@,
        crate::browser::input::flag_text(event.modifiers.shift_key),
    );
    members_are_said(
        p27,
        "\"altKey\":"@,
        "altKey"@,
        crate::browser::input::flag_text(event.modifiers.alt_key),
    );
    members_are_said(
        p27,
        "\"metaKey\":"@,
        "metaKey"@,
        crate::browser::input::flag_text(event.modifiers.meta_key),
    );
}

/// The script for a text input says which part of the text is selected and which is
/// being composed, if any.
pub proof fn text_inputs_are_spelled_out(state: TextInputState)
    ensures
        ({
            let s = crate::browser::input::text_script(state);
            &&& says(
                s,
                "selectionBase"@,
                crate::text::decimal_text(state.selection.base_offset as nat),
            )
            &&& says(
                s,
                "selectionExtent"@,
                crate::text::decimal_text(state.selection.extent_offset as nat),
            )
            &&& says(s, "composingBase"@, match state.composing {
                    Some(range) => crate::text::decimal_text(range.base_offset as nat),
                    None => "null"@,
                })
            &&& says(s, "composingExtent"@, match state.composing {
                    Some(range) => crate::text::decimal_text(range.extent_offset as nat),
                    None => "null"@,
                })
        }),
{
    let (base, extent) = match state.composing {
        Some(range) => (Some(range.base_offset as u64), Some(range.extent_offset as u64)),
        None => (None, None),
    };
    reveal_strlit(",\"composingBase\":");
    reveal_strlit(",\"composingExtent\":");
    reveal_strlit(",\"selectionBase\":");
    reveal_strlit(",\"selectionExtent\":");
    reveal_strlit(
        "globalThis.__vixenApplyTextInputState ? globalThis.__vixenApplyTextInputState({\"text\":",
    );
    reveal_strlit("}) : false");
    reveal_strlit("\"selectionBase\":");
    reveal_strlit("\"selectionExtent\":");
    reveal_strlit("\"composingBase\":");
    reveal_strlit("\"composingExtent\":");
    assert(",\"selectionBase\":"@.skip(1) =~= "\"selectionBase\":"@);
    assert(",\"selectionBase\":"@.len() == 17 && "\"selectionBase\":"@.len() == 16);
    assert(",\"selectionExtent\":"@.skip(1) =~= "\"selectionExtent\":"@);
    assert(",\"selectionExtent\":"@.len() == 19 && "\"selectionExtent\":"@.len() == 18);
    assert(",\"composingBase\":"@.skip(1) =~= "\"composingBase\":"@);
    assert(",\"composingBase\":"@.len() == 17 && "\"composingBase\":"@.len() == 16);
    assert(",\"composingExtent\":"@.skip(1) =~= "\"composingExtent\":"@);
    assert(",\"composingExtent\":"@.len() == 19 && "\"composingExtent\":"@.len() == 18);
    let p0 = "globalThis.__vixenApplyTextInputState ? globalThis.__vixenApplyTextInputState({\"text\":"@;
    let p1 = p0 + crate::weburl::json_text(state.text@);
    let p2 = p1 + ",\"selectionBase\":"@;
    let p3 = p2 + crate::text::decimal_text(state.selection.base_offset as nat);
    let p4 = p3 + ",\"selectionExtent\":"@;
    let p5 = p4 + crate::text::decimal_text(state.selection.extent_offset as nat);
    let p6 = p5 + ",\"composingBase\":"@;
    let p7 = p6 + crate::browser::input::optional_text(base);
    let p8 = p7 + ",\"composingExtent\":"@;
    let p9 = p8 + crate::browser::input::optional_text(extent);
    let p10 = p9 + "}) : false"@;
    member_ends(
        p1,
        ",\"selectionBase\":"@,
        "\"selectionBase\":"@,
        crate::text::decimal_text(state.selection.base_offset as nat),
    );
    texts_grow(
        p3,
        ",\"selectionExtent\":"@,
        "\"selectionBase\":"@ + crate::text::decimal_text(state.selection.base_offset as nat),
    );
    texts_grow(
        p4,
        crate::text::decimal_text(state.selection.extent_offset as nat),
        "\"selectionBase\":"@ + crate::text::decimal_text(state.selection.base_offset as nat),
    );
    texts_grow(
        p5,
        ",\"composingBase\":"@,
        "\"selectionBase\":"@ + crate::text::decimal_text(state.selection.base_offset as nat),
    );
    texts_grow(
        p6,
        crate::browser::input::optional_text(base),
        "\"selectionBase\":"@ + crate::text::decimal_text(state.selection.base_offset as nat),
    );
    texts_grow(
        p7,
        ",\"composingExtent\":"@,
        "\"selectionBase\":"@ + crate::text::decimal_text(state.selection.base_offset as nat),
    );
    texts_grow(
        p8,
        crate::browser::input::optional_text(extent),
        "\"selectionBase\":"@ + crate::text::decimal_text(state.selection.base_offset as nat),
    );
    texts_grow(
        p9,
        "}) : false"@,
        "\"selectionBase\":"@ + crate::text::decimal_text(state.selection.base_offset as nat),
    );
    member_ends(
        p3,
        ",\"selectionExtent\":"@,
        "\"selectionExtent\":"@,
        crate::text::decimal_text(state.selection.extent_offset as nat),
    );
    texts_grow(
        p5,
        ",\"composingBase\":"@,
        "\"selectionExtent\":"@ + crate::text::decimal_text(state.selection.extent_offset as nat),
    );
    texts_grow(
        p6,
        crate::browser::input::optional_text(base),
        "\"selectionExtent\":"@ + crate::text::decimal_text(state.selection.extent_offset as nat),
    );
    texts_grow(
        p7,
        ",\"composingExtent\":"@,
        "\"selectionExtent\":"@ + crate::text::decimal_text(state.selection.extent_offset as nat),
    );
    texts_grow(
        p8,
        crate::browser::input::optional_text(extent),
        "\"selectionExtent\":"@ + crate::text::decimal_text(state.selection.extent_offset as nat),
    );
    texts_grow(
        p9,
        "}) : false"@,
        "\"selectionExtent\":"@ + crate::text::decimal_text(state.selection.extent_offset as nat),
    );
    member_ends(
        p5,
        ",\"composingBase\":"@,
        "\"composingBase\":"@,
        crate::browser::input::optional_text(base),
    );
    texts_grow(
        p7,
        ",\"composingExtent\":"@,
        "\"composingBase\":"@ + crate::browser::input::optional_text(base),
    );
    texts_grow(
        p8,
        crate::browser::input::optional_text(extent),
        "\"composingBase\":"@ + crate::browser::input::optional_text(base),
    );
    texts_grow(
        p9,
        "}) : false"@,
        "\"composingBase\":"@ + crate::browser::input::optional_text(base),
    );
    member_ends(
        p7,
        ",\"composingExtent\":"@,
        "\"composingExtent\":"@,
        crate::browser::input::optional_text(extent),
    );
    texts_grow(
        p9,
        "}) : false"@,
        "\"composingExtent\":"@ + crate::browser::input::optional_text(extent),
    );
    reveal_strlit("selectionBase");
    reveal_strlit("selectionExtent");
    reveal_strlit("composingBase");
    reveal_strlit("composingExtent");
    members_are_said(
        p10,
        "\"selectionBase\":"@,
        "selectionBase"@,
        crate::text::decimal_text(state.selection.base_offset as nat),
    );
    members_are_said(
        p10,
        "\"selectionExtent\":"@,
        "selectionExtent"@,
        crate::text::decimal_text(state.selection.extent_offset as nat),
    );
    members_are_said(
        p10,
        "\"composingBase\":"@,
        "composingBase"@,
        crate::browser::input::optional_text(base),
    );
    members_are_said(
        p10,
        "\"composingExtent\":"@,
        "composingExtent"@,
        crate::browser::input::optional_text(extent),
    );
}

} // verus!

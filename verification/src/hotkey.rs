//! The talk key: key names, key state over all keyboards, and which devices are listened to.
use vstd::prelude::*;

use std::collections::HashMap;

use vstd::std_specs::hash::group_hash_axioms;

use crate::injector::{count, counted, KeyCode, CODE_LEFTCTRL, CODE_LEFTSHIFT};
use crate::text::{
    ascending, begins_with, cat3, chars_of, insert_in_order, same, string_of, strip_prefix, texts,
    to_upper, trim, trimmed, uppered,
};

verus! {

broadcast use group_hash_axioms;

/// How often the devices are looked for again, in milliseconds.
pub const HOTKEY_DEVICE_RESCAN_INTERVAL_MS: u64 = 750;

/// How often the counters are logged, in seconds.
pub const HOTKEY_METRICS_LOG_INTERVAL_SECS: u64 = 30;

/// The right control key.
pub const CODE_RIGHTCTRL: u16 = 97;

/// The right alternate key.
pub const CODE_RIGHTALT: u16 = 100;

/// The left alternate key.
pub const CODE_LEFTALT: u16 = 56;

/// The right shift key.
pub const CODE_RIGHTSHIFT: u16 = 54;

/// What the talk key was pressed for.
#[derive(Debug, Clone, Copy, PartialEq, Eq, Structural)]
pub enum HotkeyIntent {
    Dictate,
    LlmQuery,
}

/// What the talk key did.
#[derive(Debug, Clone, Copy, PartialEq, Eq, Structural)]
pub enum HotkeyEvent {
    Down { intent: HotkeyIntent },
    Up,
}

// ---- key names

/// The key that a name in capitals stands for.
pub open spec fn key_named(name: Seq<char>) -> Option<KeyCode> {
    if name == "KEY_RIGHTCTRL"@ || name == "RIGHTCTRL"@ || name == "RIGHT_CTRL"@ {
        Some(KeyCode { code: CODE_RIGHTCTRL })
    } else if name == "KEY_LEFTCTRL"@ || name == "LEFTCTRL"@ || name == "LEFT_CTRL"@ {
        Some(KeyCode { code: CODE_LEFTCTRL })
    } else if name == "KEY_RIGHTALT"@ || name == "RIGHTALT"@ || name == "RIGHT_ALT"@ {
        Some(KeyCode { code: CODE_RIGHTALT })
    } else if name == "KEY_LEFTALT"@ || name == "LEFTALT"@ || name == "LEFT_ALT"@ {
        Some(KeyCode { code: CODE_LEFTALT })
    } else if name == "KEY_RIGHTSHIFT"@ || name == "RIGHTSHIFT"@ || name == "RIGHT_SHIFT"@ {
        Some(KeyCode { code: CODE_RIGHTSHIFT })
    } else if name == "KEY_LEFTSHIFT"@ || name == "LEFTSHIFT"@ || name == "LEFT_SHIFT"@ {
        Some(KeyCode { code: CODE_LEFTSHIFT })
    } else {
        None
    }
}

/// The key that a name stands for, or why there is none.
pub open spec fn parsed_key(name: Seq<char>) -> Result<KeyCode, Seq<char>> {
    match key_named(uppered(trim(name))) {
        Some(key) => Ok(key),
        None => Err("unsupported key name '"@ + uppered(trim(name)) + "'"@),
    }
}

/// The keys that a name stands for: both of a kind, or one.
pub open spec fn parsed_keys(name: Seq<char>) -> Result<Seq<KeyCode>, Seq<char>> {
    let n = uppered(trim(name));
    if n == "KEY_SHIFT"@ || n == "SHIFT"@ || n == "ANY_SHIFT"@ {
        Ok(seq![KeyCode { code: CODE_LEFTSHIFT }, KeyCode { code: CODE_RIGHTSHIFT }])
    } else if n == "KEY_ALT"@ || n == "ALT"@ || n == "ANY_ALT"@ {
        Ok(seq![KeyCode { code: CODE_LEFTALT }, KeyCode { code: CODE_RIGHTALT }])
    } else {
        match parsed_key(name) {
            Ok(key) => Ok(seq![key]),
            Err(e) => Err(e),
        }
    }
}

/// Reads a key's name. Case and white space around it do not matter.
pub fn parse_key_name(name: &str) -> (r: Result<KeyCode, String>)
    ensures
        match r {
            Ok(key) => parsed_key(name@) == Ok::<KeyCode, Seq<char>>(key),
            Err(e) => parsed_key(name@) == Err::<KeyCode, Seq<char>>(e@),
        },
{
    let normal = to_upper(trimmed(name).as_str());
    let n = normal.as_str();
    if same(n, "KEY_RIGHTCTRL") || same(n, "RIGHTCTRL") || same(n, "RIGHT_CTRL") {
        Ok(KeyCode { code: CODE_RIGHTCTRL })
    } else if same(n, "KEY_LEFTCTRL") || same(n, "LEFTCTRL") || same(n, "LEFT_CTRL") {
        Ok(KeyCode { code: CODE_LEFTCTRL })
    } else if same(n, "KEY_RIGHTALT") || same(n, "RIGHTALT") || same(n, "RIGHT_ALT") {
        Ok(KeyCode { code: CODE_RIGHTALT })
    } else if same(n, "KEY_LEFTALT") || same(n, "LEFTALT") || same(n, "LEFT_ALT") {
        Ok(KeyCode { code: CODE_LEFTALT })
    } else if same(n, "KEY_RIGHTSHIFT") || same(n, "RIGHTSHIFT") || same(n, "RIGHT_SHIFT") {
        Ok(KeyCode { code: CODE_RIGHTSHIFT })
    } else if same(n, "KEY_LEFTSHIFT") || same(n, "LEFTSHIFT") || same(n, "LEFT_SHIFT") {
        Ok(KeyCode { code: CODE_LEFTSHIFT })
    } else {
        Err(cat3("unsupported key name '", n, "'"))
    }
}

/// Reads the name of the keys that, held before the talk key, ask for an answer.
pub fn parse_pre_modifier_key_names(name: &str) -> (r: Result<Vec<KeyCode>, String>)
    ensures
        match r {
            Ok(keys) => parsed_keys(name@) == Ok::<Seq<KeyCode>, Seq<char>>(keys@),
            Err(e) => parsed_keys(name@) == Err::<Seq<KeyCode>, Seq<char>>(e@),
        },
{
    let normal = to_upper(trimmed(name).as_str());
    let n = normal.as_str();
    let mut keys: Vec<KeyCode> = Vec::new();
    if same(n, "KEY_SHIFT") || same(n, "SHIFT") || same(n, "ANY_SHIFT") {
        keys.push(KeyCode { code: CODE_LEFTSHIFT });
        keys.push(KeyCode { code: CODE_RIGHTSHIFT });
        assert(keys@ =~= seq![
            KeyCode { code: CODE_LEFTSHIFT },
            KeyCode { code: CODE_RIGHTSHIFT },
        ]);
        Ok(keys)
    } else if same(n, "KEY_ALT") || same(n, "ALT") || same(n, "ANY_ALT") {
        keys.push(KeyCode { code: CODE_LEFTALT });
        keys.push(KeyCode { code: CODE_RIGHTALT });
        assert(keys@ =~= seq![KeyCode { code: CODE_LEFTALT }, KeyCode { code: CODE_RIGHTALT }]);
        Ok(keys)
    } else {
        match parse_key_name(name) {
            Ok(key) => {
                keys.push(key);
                assert(keys@ =~= seq![key]);
                Ok(keys)
            },
            Err(e) => Err(e),
        }
    }
}

// ---- key state over all keyboards

/// Which keys are down, and how many times over all keyboards.
#[derive(Debug)]
pub struct HotkeySharedState {
    talk_down_count: usize,
    pre_modifier_down_counts: HashMap<u16, usize>,
}

/// Which keys are down, mathematically. A key that is not down has no entry.
#[verifier::ext_equal]
pub struct KeysDown {
    pub talk: usize,
    pub modifiers: Map<u16, usize>,
}

/// How many presses were forgotten.
#[derive(Debug, Clone, Copy, PartialEq, Eq, Structural)]
pub struct HotkeySharedStateReset {
    pub talk_down_count: usize,
    pub pre_modifier_down_count: usize,
}

impl HotkeySharedStateReset {
    /// Whether any key was down.
    pub fn had_pressed_keys(self) -> (r: bool)
        ensures
            r == (self.talk_down_count > 0 || self.pre_modifier_down_count > 0),
    {
        self.talk_down_count > 0 || self.pre_modifier_down_count > 0
    }
}

/// One more; a full counter stays full.
pub open spec fn pressed_more(n: usize) -> usize {
    if n < usize::MAX {
        (n + 1) as usize
    } else {
        n
    }
}

/// The keys after a modifier went down.
pub open spec fn modifier_pressed(k: KeysDown, key: KeyCode) -> KeysDown {
    KeysDown {
        modifiers: k.modifiers.insert(
            key.code,
            if k.modifiers.dom().contains(key.code) {
                pressed_more(k.modifiers[key.code])
            } else {
                1
            },
        ),
        ..k
    }
}

/// The keys after a modifier went up.
pub open spec fn modifier_released(k: KeysDown, key: KeyCode) -> KeysDown {
    if !k.modifiers.dom().contains(key.code) {
        k
    } else if k.modifiers[key.code] > 1 {
        KeysDown {
            modifiers: k.modifiers.insert(key.code, (k.modifiers[key.code] - 1) as usize),
            ..k
        }
    } else {
        KeysDown { modifiers: k.modifiers.remove(key.code), ..k }
    }
}

/// Whether any modifier is down.
pub open spec fn modifier_held(k: KeysDown) -> bool {
    exists|code: u16| #[trigger] k.modifiers.dom().contains(code)
}

/// All presses of modifiers together.
pub open spec fn modifier_total(m: Map<u16, usize>) -> nat
    recommends
        m.dom().finite(),
    decreases m.dom().len(),
    when m.dom().finite()
{
    if m.dom().len() == 0 {
        0
    } else {
        let code = m.dom().choose();
        m[code] as nat + modifier_total(m.remove(code))
    }
}

/// A number of presses, as far as a counter holds it.
pub open spec fn press_count(n: nat) -> usize {
    if n <= usize::MAX {
        n as usize
    } else {
        usize::MAX
    }
}

/// The presses of the first listed modifiers together.
pub open spec fn listed_total(m: Map<u16, usize>, codes: Seq<&u16>) -> nat
    decreases codes.len(),
{
    if codes.len() == 0 {
        0
    } else {
        listed_total(m, codes.drop_last()) + m[*codes.last()] as nat
    }
}

proof fn lemma_total_without(m: Map<u16, usize>, code: u16)
    requires
        m.dom().finite(),
        m.dom().contains(code),
    ensures
        modifier_total(m) == m[code] as nat + modifier_total(m.remove(code)),
    decreases m.dom().len(),
{
    let first = m.dom().choose();
    assert(m.dom().contains(first));
    if first != code {
        assert(m.remove(first).dom() =~= m.dom().remove(first));
        assert(m.remove(code).dom() =~= m.dom().remove(code));
        lemma_total_without(m.remove(first), code);
        lemma_total_without(m.remove(code), first);
        assert(m.remove(first).remove(code) =~= m.remove(code).remove(first));
    }
}

proof fn lemma_listed_total_same(a: Map<u16, usize>, b: Map<u16, usize>, codes: Seq<&u16>)
    requires
        forall|i: int| 0 <= i < codes.len() ==> a[*#[trigger] codes[i]] == b[*codes[i]],
    ensures
        listed_total(a, codes) == listed_total(b, codes),
    decreases codes.len(),
{
    if codes.len() > 0 {
        let rest = codes.drop_last();
        assert forall|i: int| 0 <= i < rest.len() implies a[*#[trigger] rest[i]]
            == b[*rest[i]] by {
            assert(rest[i] == codes[i]);
        }
        assert(codes.last() == codes[codes.len() - 1]);
        lemma_listed_total_same(a, b, rest);
    }
}

proof fn lemma_listed_total(m: Map<u16, usize>, codes: Seq<&u16>)
    requires
        m.dom().finite(),
        codes.no_duplicates(),
        forall|code: u16| #[trigger] m.dom().contains(code) <==> codes.contains(&code),
    ensures
        listed_total(m, codes) == modifier_total(m),
    decreases codes.len(),
{
    if codes.len() == 0 {
        assert forall|code: u16| !m.dom().contains(code) by {
            assert(!codes.contains(&code));
        }
        assert(m.dom() =~= Set::empty());
    } else {
        let code = *codes.last();
        let rest = codes.drop_last();
        let less = m.remove(code);
        assert(codes[codes.len() - 1] == codes.last());
        assert(codes.contains(&code));
        assert(m.dom().contains(code));
        assert(less.dom() =~= m.dom().remove(code));
        assert forall|c: u16| #[trigger] less.dom().contains(c) <==> rest.contains(&c) by {
            if less.dom().contains(c) {
                assert(m.dom().contains(c));
                let i = choose|i: int| 0 <= i < codes.len() && codes[i] == &c;
                assert(rest[i] == &c);
            }
            if rest.contains(&c) {
                let i = choose|i: int| 0 <= i < rest.len() && rest[i] == &c;
                assert(codes[i] == &c);
                assert(codes.contains(&c));
                assert(m.dom().contains(c));
            }
        }
        lemma_listed_total(less, rest);
        assert forall|i: int| 0 <= i < rest.len() implies m[*#[trigger] rest[i]]
            == less[*rest[i]] by {
            assert(rest[i] == codes[i]);
        }
        lemma_listed_total_same(m, less, rest);
        lemma_total_without(m, code);
    }
}

proof fn lemma_all_listed(m: Map<u16, usize>, codes: Seq<&u16>)
    requires
        m.dom().finite(),
        codes.unref().to_set() == m.dom(),
        codes.unref().no_duplicates(),
    ensures
        listed_total(m, codes) == modifier_total(m),
{
    assert forall|i: int, j: int| 0 <= i < codes.len() && 0 <= j < codes.len() && i
        != j implies codes[i] != codes[j] by {
        assert(codes.unref()[i] != codes.unref()[j]);
    }
    assert forall|code: u16| #[trigger] m.dom().contains(code) <==> codes.contains(&code) by {
        if codes.unref().to_set().contains(code) {
            let i = choose|i: int| 0 <= i < codes.unref().len() && codes.unref()[i] == code;
            assert(codes[i] == &code);
        }
        if codes.contains(&code) {
            let i = choose|i: int| 0 <= i < codes.len() && codes[i] == &code;
            assert(codes.unref()[i] == code);
        }
    }
    lemma_listed_total(m, codes);
}

/// Whatever the order, all modifiers listed once come to the total.
proof fn lemma_any_listing(m: Map<u16, usize>)
    requires
        m.dom().finite(),
    ensures
        forall|codes: Seq<&u16>|
            codes.unref().to_set() == m.dom() && codes.unref().no_duplicates()
                ==> #[trigger] listed_total(m, codes) == modifier_total(m),
{
    assert forall|codes: Seq<&u16>|
        codes.unref().to_set() == m.dom()
            && codes.unref().no_duplicates() implies #[trigger] listed_total(m, codes)
        == modifier_total(m) by {
        lemma_all_listed(m, codes);
    }
}

impl Default for HotkeySharedState {
    /// No key is down.
    fn default() -> (r: HotkeySharedState)
        ensures
            r.keys() == (KeysDown { talk: 0, modifiers: Map::empty() }),
    {
        let r = HotkeySharedState { talk_down_count: 0, pre_modifier_down_counts: HashMap::new() };
        assert(r.keys() =~= (KeysDown { talk: 0, modifiers: Map::empty() }));
        r
    }
}

impl HotkeySharedState {
    /// Which keys are down.
    pub closed spec fn keys(self) -> KeysDown {
        KeysDown { talk: self.talk_down_count, modifiers: self.pre_modifier_down_counts@ }
    }

    /// A modifier went down.
    pub fn note_pre_modifier_down(&mut self, key: KeyCode)
        ensures
            final(self).keys() == modifier_pressed(old(self).keys(), key),
    {
        let before: usize = match self.pre_modifier_down_counts.get(&key.code) {
            Some(n) => *n,
            None => 0,
        };
        self.pre_modifier_down_counts.insert(key.code, before.saturating_add(1));
        assert(self.keys() =~= modifier_pressed(old(self).keys(), key));
    }

    /// A modifier went up.
    pub fn note_pre_modifier_up(&mut self, key: KeyCode)
        ensures
            final(self).keys() == modifier_released(old(self).keys(), key),
    {
        let before: usize = match self.pre_modifier_down_counts.get(&key.code) {
            Some(n) => *n,
            None => {
                return;
            },
        };
        if before > 1 {
            self.pre_modifier_down_counts.insert(key.code, before - 1);
        } else {
            self.pre_modifier_down_counts.remove(&key.code);
        }
        assert(self.keys() =~= modifier_released(old(self).keys(), key));
    }

    /// The talk key went down on some keyboard. Tells whether it was up on all of them.
    pub fn note_talk_down(&mut self) -> (r: bool)
        ensures
            r == (old(self).keys().talk == 0),
            final(self).keys() == (KeysDown {
                talk: pressed_more(old(self).keys().talk),
                ..old(self).keys()
            }),
    {
        let was_up = self.talk_down_count == 0;
        self.talk_down_count = self.talk_down_count.saturating_add(1);
        was_up
    }

    /// The talk key went up on some keyboard. Tells whether it is now up on all of them.
    pub fn note_talk_up(&mut self) -> (r: bool)
        ensures
            r == (old(self).keys().talk == 1),
            final(self).keys() == (KeysDown {
                talk: if old(self).keys().talk == 0 {
                    0
                } else {
                    (old(self).keys().talk - 1) as usize
                },
                ..old(self).keys()
            }),
    {
        if self.talk_down_count == 0 {
            return false;
        }
        self.talk_down_count = self.talk_down_count - 1;
        self.talk_down_count == 0
    }

    /// Whether any modifier is down.
    pub fn pre_modifier_active(&self) -> (r: bool)
        ensures
            r == modifier_held(self.keys()),
    {
        let n: usize = self.pre_modifier_down_counts.len();
        proof {
            let dom = self.pre_modifier_down_counts@.dom();
            assert(self.keys().modifiers.dom() == dom);
            if n == 0 {
                assert(dom =~= Set::empty());
            } else {
                assert(dom.contains(dom.choose()));
            }
        }
        n != 0
    }

    /// Forgets all presses, and tells how many there were.
    pub fn reset(&mut self) -> (r: HotkeySharedStateReset)
        ensures
            r.talk_down_count == old(self).keys().talk,
            r.pre_modifier_down_count == press_count(
                modifier_total(old(self).keys().modifiers),
            ),
            final(self).keys() == (KeysDown { talk: 0, modifiers: Map::empty() }),
    {
        let mut total: usize = 0;
        let ghost m = self.pre_modifier_down_counts@;
        let counts = &self.pre_modifier_down_counts;
        proof {
            lemma_any_listing(m);
        }
        for code in it: counts.keys()
            invariant
                counts@ == m,
                forall|codes: Seq<&u16>|
                    codes.unref().to_set() == m.dom() && codes.unref().no_duplicates()
                        ==> #[trigger] listed_total(m, codes) == modifier_total(m),
                it.seq().unref().to_set() == m.dom(),
                it.seq().unref().no_duplicates(),
                total == press_count(listed_total(m, it.seq().take(it.index() as int))),
                it.seq().take(it.seq().len() as int) == it.seq(),
                it.index() == it.seq().len() ==> total == press_count(modifier_total(m)),
        {
            let n: usize = match counts.get(code) {
                Some(n) => *n,
                None => 0,
            };
            proof {
                let i = it.index() as int;
                assert(it.seq().unref()[i] == *code);
                assert(it.seq().unref().to_set().contains(*code));
                assert(it.seq().take(i + 1).drop_last() =~= it.seq().take(i));
                assert(it.seq().take(i + 1).last() == code);
            }
            total = total.saturating_add(n);
        }
        let reset = HotkeySharedStateReset {
            talk_down_count: self.talk_down_count,
            pre_modifier_down_count: total,
        };
        self.talk_down_count = 0;
        self.pre_modifier_down_counts.clear();
        assert(self.keys() =~= (KeysDown { talk: 0, modifiers: Map::empty() }));
        reset
    }
}

// ---- from key events to events of the talk key

/// The keys after a key event, and what the talk key did.
///
/// A modifier only changes which modifiers are down. The talk key is down from its first press
/// on any keyboard to its last release; what it is for is settled at that first press. A value
/// other than 1 (press) and 0 (release) changes nothing.
pub open spec fn keys_next(
    k: KeysDown,
    talk_key: KeyCode,
    modifiers: Seq<KeyCode>,
    key: KeyCode,
    value: int,
) -> (KeysDown, Option<HotkeyEvent>) {
    if modifiers.contains(key) {
        if value == 1 {
            (modifier_pressed(k, key), None)
        } else if value == 0 {
            (modifier_released(k, key), None)
        } else {
            (k, None)
        }
    } else if key == talk_key && value == 1 {
        (
            KeysDown { talk: pressed_more(k.talk), ..k },
            if k.talk == 0 {
                Some(
                    HotkeyEvent::Down {
                        intent: if modifier_held(k) {
                            HotkeyIntent::LlmQuery
                        } else {
                            HotkeyIntent::Dictate
                        },
                    },
                )
            } else {
                None
            },
        )
    } else if key == talk_key && value == 0 && k.talk > 0 {
        (
            KeysDown { talk: (k.talk - 1) as usize, ..k },
            if k.talk == 1 {
                Some(HotkeyEvent::Up)
            } else {
                None
            },
        )
    } else {
        (k, None)
    }
}

/// Whether a key is one of the listed ones.
fn holds_key(keys: &Vec<KeyCode>, key: KeyCode) -> (r: bool)
    ensures
        r == keys@.contains(key),
{
    let mut i: usize = 0;
    while i < keys.len()
        invariant
            i <= keys@.len(),
            forall|j: int| 0 <= j < i ==> keys@[j] != key,
        decreases keys@.len() - i,
    {
        if keys[i] == key {
            assert(keys@[i as int] == key);
            return true;
        }
        i = i + 1;
    }
    false
}

/// Takes a key event, and tells what the talk key did.
pub fn derive_hotkey_event(
    state: &mut HotkeySharedState,
    talk_key: KeyCode,
    llm_pre_modifier_keys: &Vec<KeyCode>,
    key: KeyCode,
    value: i32,
) -> (r: Option<HotkeyEvent>)
    ensures
        (final(state).keys(), r) == keys_next(
            old(state).keys(),
            talk_key,
            llm_pre_modifier_keys@,
            key,
            value as int,
        ),
{
    if holds_key(llm_pre_modifier_keys, key) {
        if value == 1 {
            state.note_pre_modifier_down(key);
        } else if value == 0 {
            state.note_pre_modifier_up(key);
        }
        return None;
    }
    if key == talk_key {
        if value == 1 {
            if state.note_talk_down() {
                assert(state.keys().modifiers == old(state).keys().modifiers);
                assert(modifier_held(state.keys()) == modifier_held(old(state).keys()));
                let intent = if state.pre_modifier_active() {
                    HotkeyIntent::LlmQuery
                } else {
                    HotkeyIntent::Dictate
                };
                return Some(HotkeyEvent::Down { intent });
            }
        } else if value == 0 {
            if state.note_talk_up() {
                return Some(HotkeyEvent::Up);
            }
        }
    }
    None
}

/// The talk key is reported down exactly when it leaves the state up on all keyboards, and up
/// exactly when it comes back to it; so reports alternate.
pub proof fn law_talk_reports_alternate(
    k: KeysDown,
    talk_key: KeyCode,
    modifiers: Seq<KeyCode>,
    key: KeyCode,
    value: int,
)
    ensures
        ({
            let (next, event) = keys_next(k, talk_key, modifiers, key, value);
            &&& event is Some && event->0 is Down <==> k.talk == 0 && next.talk > 0
            &&& event == Some(HotkeyEvent::Up) <==> k.talk > 0 && next.talk == 0
        }),
{
}

/// Key repeats change nothing and report nothing.
pub proof fn law_key_repeat_is_ignored(
    k: KeysDown,
    talk_key: KeyCode,
    modifiers: Seq<KeyCode>,
    key: KeyCode,
    value: int,
)
    requires
        value != 0,
        value != 1,
    ensures
        keys_next(k, talk_key, modifiers, key, value) == (k, None::<HotkeyEvent>),
{
}

/// A press and its release leave the keys as they were, where no counter was full.
pub proof fn law_press_and_release_cancel(
    k: KeysDown,
    talk_key: KeyCode,
    modifiers: Seq<KeyCode>,
    key: KeyCode,
)
    requires
        k.talk < usize::MAX,
        k.modifiers.dom().contains(key.code) ==> 0 < k.modifiers[key.code] < usize::MAX,
    ensures
        ({
            let (pressed, _) = keys_next(k, talk_key, modifiers, key, 1);
            keys_next(pressed, talk_key, modifiers, key, 0).0 == k
        }),
{
    let (pressed, _) = keys_next(k, talk_key, modifiers, key, 1);
    assert(keys_next(pressed, talk_key, modifiers, key, 0).0 =~= k);
}

/// A session is a question exactly when some modifier is down at the press that starts it.
pub proof fn law_intent_is_settled_at_the_press(
    k: KeysDown,
    talk_key: KeyCode,
    modifiers: Seq<KeyCode>,
    key: KeyCode,
    value: int,
)
    ensures
        keys_next(k, talk_key, modifiers, key, value).1 matches Some(HotkeyEvent::Down { intent })
            ==> (intent == HotkeyIntent::LlmQuery <==> modifier_held(k)),
{
}

// ---- counters

/// Why a listener ended.
#[derive(Debug)]
pub enum ListenerExitReason {
    OpenError(String),
    FetchError(String),
    ChannelClosed,
    TaskJoinError(String),
}

/// What has happened with devices and keys so far.
#[derive(Debug, Clone, Copy, PartialEq, Eq, Structural)]
pub struct HotkeyDiagnostics {
    pub scan_runs_total: u64,
    pub scan_matching_device_total: u64,
    pub listener_start_total: u64,
    pub listener_exit_total: u64,
    pub listener_open_error_total: u64,
    pub listener_fetch_error_total: u64,
    pub listener_task_join_error_total: u64,
    pub talk_down_raw_total: u64,
    pub talk_up_raw_total: u64,
    pub pre_modifier_down_raw_total: u64,
    pub pre_modifier_up_raw_total: u64,
    pub talk_down_emitted_total: u64,
    pub talk_down_llm_query_emitted_total: u64,
    pub talk_up_emitted_total: u64,
    pub channel_send_fail_total: u64,
}

impl Default for HotkeyDiagnostics {
    /// Nothing has happened.
    fn default() -> (r: HotkeyDiagnostics)
        ensures
            r == nothing_noted(),
    {
        HotkeyDiagnostics {
            scan_runs_total: 0,
            scan_matching_device_total: 0,
            listener_start_total: 0,
            listener_exit_total: 0,
            listener_open_error_total: 0,
            listener_fetch_error_total: 0,
            listener_task_join_error_total: 0,
            talk_down_raw_total: 0,
            talk_up_raw_total: 0,
            pre_modifier_down_raw_total: 0,
            pre_modifier_up_raw_total: 0,
            talk_down_emitted_total: 0,
            talk_down_llm_query_emitted_total: 0,
            talk_up_emitted_total: 0,
            channel_send_fail_total: 0,
        }
    }
}

/// Nothing has happened.
pub open spec fn nothing_noted() -> HotkeyDiagnostics {
    HotkeyDiagnostics {
        scan_runs_total: 0,
        scan_matching_device_total: 0,
        listener_start_total: 0,
        listener_exit_total: 0,
        listener_open_error_total: 0,
        listener_fetch_error_total: 0,
        listener_task_join_error_total: 0,
        talk_down_raw_total: 0,
        talk_up_raw_total: 0,
        pre_modifier_down_raw_total: 0,
        pre_modifier_up_raw_total: 0,
        talk_down_emitted_total: 0,
        talk_down_llm_query_emitted_total: 0,
        talk_up_emitted_total: 0,
        channel_send_fail_total: 0,
    }
}

/// The counters after a scan.
pub open spec fn scan_noted(d: HotkeyDiagnostics, matching: u64) -> HotkeyDiagnostics {
    HotkeyDiagnostics {
        scan_runs_total: counted(d.scan_runs_total, 1),
        scan_matching_device_total: counted(d.scan_matching_device_total, matching),
        ..d
    }
}

/// The counters after a listener ended.
pub open spec fn exit_noted(d: HotkeyDiagnostics, reason: ListenerExitReason) ->
    HotkeyDiagnostics {
    let e = HotkeyDiagnostics { listener_exit_total: counted(d.listener_exit_total, 1), ..d };
    match reason {
        ListenerExitReason::OpenError(_) => HotkeyDiagnostics {
            listener_open_error_total: counted(d.listener_open_error_total, 1),
            ..e
        },
        ListenerExitReason::FetchError(_) => HotkeyDiagnostics {
            listener_fetch_error_total: counted(d.listener_fetch_error_total, 1),
            ..e
        },
        ListenerExitReason::TaskJoinError(_) => HotkeyDiagnostics {
            listener_task_join_error_total: counted(d.listener_task_join_error_total, 1),
            ..e
        },
        ListenerExitReason::ChannelClosed => e,
    }
}

/// The counters after an event was reported.
pub open spec fn event_noted(d: HotkeyDiagnostics, event: HotkeyEvent) -> HotkeyDiagnostics {
    match event {
        HotkeyEvent::Down { intent } => HotkeyDiagnostics {
            talk_down_emitted_total: counted(d.talk_down_emitted_total, 1),
            talk_down_llm_query_emitted_total: if intent == HotkeyIntent::LlmQuery {
                counted(d.talk_down_llm_query_emitted_total, 1)
            } else {
                d.talk_down_llm_query_emitted_total
            },
            ..d
        },
        HotkeyEvent::Up => HotkeyDiagnostics {
            talk_up_emitted_total: counted(d.talk_up_emitted_total, 1),
            ..d
        },
    }
}

/// The counters after a key event, and whether it matters.
pub open spec fn raw_noted(
    d: HotkeyDiagnostics,
    talk_key: KeyCode,
    modifiers: Seq<KeyCode>,
    key: KeyCode,
    value: int,
) -> (HotkeyDiagnostics, bool) {
    if modifiers.contains(key) && value == 1 {
        (
            HotkeyDiagnostics {
                pre_modifier_down_raw_total: counted(d.pre_modifier_down_raw_total, 1),
                ..d
            },
            true,
        )
    } else if modifiers.contains(key) && value == 0 {
        (
            HotkeyDiagnostics {
                pre_modifier_up_raw_total: counted(d.pre_modifier_up_raw_total, 1),
                ..d
            },
            true,
        )
    } else if !modifiers.contains(key) && key == talk_key && value == 1 {
        (
            HotkeyDiagnostics { talk_down_raw_total: counted(d.talk_down_raw_total, 1), ..d },
            true,
        )
    } else if !modifiers.contains(key) && key == talk_key && value == 0 {
        (HotkeyDiagnostics { talk_up_raw_total: counted(d.talk_up_raw_total, 1), ..d }, true)
    } else {
        (d, false)
    }
}

impl HotkeyDiagnostics {
    /// A scan found so many devices.
    pub fn note_scan(&mut self, matching_devices: u64)
        ensures
            *final(self) == scan_noted(*old(self), matching_devices),
    {
        self.scan_runs_total = count(self.scan_runs_total, 1);
        self.scan_matching_device_total = count(self.scan_matching_device_total, matching_devices);
    }

    /// A listener started.
    pub fn note_listener_started(&mut self)
        ensures
            *final(self) == (HotkeyDiagnostics {
                listener_start_total: counted(old(self).listener_start_total, 1),
                ..*old(self)
            }),
    {
        self.listener_start_total = count(self.listener_start_total, 1);
    }

    /// A listener ended.
    pub fn note_listener_exit(&mut self, reason: &ListenerExitReason)
        ensures
            *final(self) == exit_noted(*old(self), *reason),
    {
        self.listener_exit_total = count(self.listener_exit_total, 1);
        match reason {
            ListenerExitReason::OpenError(_) => {
                self.listener_open_error_total = count(self.listener_open_error_total, 1);
            },
            ListenerExitReason::FetchError(_) => {
                self.listener_fetch_error_total = count(self.listener_fetch_error_total, 1);
            },
            ListenerExitReason::TaskJoinError(_) => {
                self.listener_task_join_error_total =
                count(self.listener_task_join_error_total, 1);
            },
            ListenerExitReason::ChannelClosed => {},
        }
    }

    /// An event was reported.
    pub fn note_emitted_event(&mut self, event: HotkeyEvent)
        ensures
            *final(self) == event_noted(*old(self), event),
    {
        match event {
            HotkeyEvent::Down { intent } => {
                self.talk_down_emitted_total = count(self.talk_down_emitted_total, 1);
                if intent == HotkeyIntent::LlmQuery {
                    self.talk_down_llm_query_emitted_total =
                    count(self.talk_down_llm_query_emitted_total, 1);
                }
            },
            HotkeyEvent::Up => {
                self.talk_up_emitted_total = count(self.talk_up_emitted_total, 1);
            },
        }
    }

    /// Nobody took an event.
    pub fn note_send_failure(&mut self)
        ensures
            *final(self) == (HotkeyDiagnostics {
                channel_send_fail_total: counted(old(self).channel_send_fail_total, 1),
                ..*old(self)
            }),
    {
        self.channel_send_fail_total = count(self.channel_send_fail_total, 1);
    }
}

/// Counts a key event, and tells whether it matters.
pub fn record_raw_key_event(
    diagnostics: &mut HotkeyDiagnostics,
    talk_key: KeyCode,
    llm_pre_modifier_keys: &Vec<KeyCode>,
    key: KeyCode,
    value: i32,
) -> (r: bool)
    ensures
        (*final(diagnostics), r) == raw_noted(
            *old(diagnostics),
            talk_key,
            llm_pre_modifier_keys@,
            key,
            value as int,
        ),
{
    if holds_key(llm_pre_modifier_keys, key) {
        if value == 1 {
            diagnostics.pre_modifier_down_raw_total =
            count(diagnostics.pre_modifier_down_raw_total, 1);
            return true;
        }
        if value == 0 {
            diagnostics.pre_modifier_up_raw_total = count(diagnostics.pre_modifier_up_raw_total, 1);
            return true;
        }
        return false;
    }
    if key == talk_key {
        if value == 1 {
            diagnostics.talk_down_raw_total = count(diagnostics.talk_down_raw_total, 1);
            return true;
        }
        if value == 0 {
            diagnostics.talk_up_raw_total = count(diagnostics.talk_up_raw_total, 1);
            return true;
        }
    }
    false
}

/// A key event that does not matter neither changes the keys nor reports anything.
pub proof fn law_ignored_key_events_change_nothing(
    k: KeysDown,
    d: HotkeyDiagnostics,
    talk_key: KeyCode,
    modifiers: Seq<KeyCode>,
    key: KeyCode,
    value: int,
)
    requires
        !raw_noted(d, talk_key, modifiers, key, value).1,
    ensures
        raw_noted(d, talk_key, modifiers, key, value).0 == d,
        keys_next(k, talk_key, modifiers, key, value) == (k, None::<HotkeyEvent>),
{
}

// ---- which devices are listened to

/// Where the last component of a path starts.
pub open spec fn after_last_slash(path: Seq<char>) -> int
    decreases path.len(),
{
    if path.len() == 0 {
        0
    } else if path.last() == '/' {
        path.len() as int
    } else {
        after_last_slash(path.drop_last())
    }
}

/// The name of the file that a path leads to: its last component, where slashes and `.` at the
/// end do not count. A path that ends in `..` has none.
pub open spec fn file_name_of(path: Seq<char>) -> Option<Seq<char>>
    decreases path.len(),
{
    if path.len() == 0 {
        None
    } else if path.last() == '/' {
        file_name_of(path.drop_last())
    } else {
        let start = after_last_slash(path);
        let name = path.skip(start);
        if name == seq!['.'] {
            if 0 < start < path.len() {
                file_name_of(path.take(start))
            } else {
                None
            }
        } else if name == seq!['.', '.'] {
            None
        } else {
            Some(name)
        }
    }
}

proof fn lemma_after_last_slash(path: Seq<char>)
    ensures
        0 <= after_last_slash(path) <= path.len(),
        forall|i: int| after_last_slash(path) <= i < path.len() ==> path[i] != '/',
        path.len() > 0 && path.last() != '/' ==> after_last_slash(path) < path.len(),
        after_last_slash(path) > 0 ==> path[after_last_slash(path) - 1] == '/',
    decreases path.len(),
{
    if path.len() > 0 && path.last() != '/' {
        lemma_after_last_slash(path.drop_last());
        assert forall|i: int| after_last_slash(path) <= i < path.len() implies path[i] != '/' by {
            if i < path.len() - 1 {
                assert(path[i] == path.drop_last()[i]);
            }
        }
    }
}

/// The name of the file that a path leads to.
pub fn file_name(path: &str) -> (r: Option<String>)
    ensures
        match r {
            Some(name) => file_name_of(path@) == Some(name@),
            None => file_name_of(path@) is None,
        },
{
    let chars = chars_of(path);
    let mut end: usize = chars.len();
    assert(chars@.take(end as int) =~= path@);
    while end > 0
        invariant
            chars@ == path@,
            end <= chars@.len(),
            file_name_of(path@) == file_name_of(chars@.take(end as int)),
        decreases end,
    {
        let ghost here = chars@.take(end as int);
        assert(here.last() == chars@[end - 1]);
        if chars[end - 1] == '/' {
            assert(here.drop_last() =~= chars@.take(end - 1));
            end = end - 1;
            continue;
        }
        let mut start: usize = end - 1;
        proof {
            lemma_after_last_slash(here);
        }
        while start > 0 && chars[start - 1] != '/'
            invariant
                start < end <= chars@.len(),
                here == chars@.take(end as int),
                after_last_slash(here) <= start,
                after_last_slash(here) > 0 ==> here[after_last_slash(here) - 1] == '/',
            decreases start,
        {
            assert(here[start - 1] == chars@[start - 1]);
            start = start - 1;
        }
        proof {
            if after_last_slash(here) < start {
                assert(here[start - 1] == chars@[start - 1]);
            }
            assert(after_last_slash(here) == start);
        }
        let ghost name = here.skip(start as int);
        assert(name =~= chars@.subrange(start as int, end as int));
        if end - start == 1 && chars[start] == '.' {
            assert(name =~= seq!['.']);
            if start == 0 {
                return None;
            }
            assert(here.take(start as int) =~= chars@.take(start as int));
            end = start;
            continue;
        }
        assert(name != seq!['.']) by {
            if name == seq!['.'] {
                assert(name.len() == 1);
                assert(name[0] == '.');
            }
        }
        if end - start == 2 && chars[start] == '.' && chars[start + 1] == '.' {
            assert(name =~= seq!['.', '.']);
            return None;
        }
        assert(name != seq!['.', '.']) by {
            if name == seq!['.', '.'] {
                assert(name.len() == 2);
                assert(name[0] == '.');
                assert(name[1] == '.');
            }
        }
        return Some(string_of(&chars, start, end));
    }
    None
}

/// Whether a path is one of an event device, by its name.
pub open spec fn event_device(path: Seq<char>) -> bool {
    file_name_of(path) matches Some(name) && begins_with(name, "event"@)
}

/// Whether a path is one of an event device, by its name.
pub fn is_event_device_path(path: &str) -> (r: bool)
    ensures
        r == event_device(path@),
{
    match file_name(path) {
        Some(name) => strip_prefix(name.as_str(), "event").is_some(),
        None => false,
    }
}

/// Whether a device that has these keys has one that matters.
pub open spec fn capable(supported: Seq<KeyCode>, talk_key: KeyCode, modifiers: Seq<KeyCode>) ->
    bool {
    supported.contains(talk_key) || exists|i: int|
        0 <= i < modifiers.len() && supported.contains(#[trigger] modifiers[i])
}

/// Whether a device that has these keys, if any, has one that matters.
pub fn is_hotkey_capable_device(
    supported: &Option<Vec<KeyCode>>,
    talk_key: KeyCode,
    llm_pre_modifier_keys: &Vec<KeyCode>,
) -> (r: bool)
    ensures
        r == (supported matches Some(keys) && capable(keys@, talk_key, llm_pre_modifier_keys@)),
{
    match supported {
        Some(keys) => {
            if holds_key(keys, talk_key) {
                return true;
            }
            let mut i: usize = 0;
            while i < llm_pre_modifier_keys.len()
                invariant
                    i <= llm_pre_modifier_keys@.len(),
                    *supported == Some(*keys),
                    !keys@.contains(talk_key),
                    forall|j: int|
                        0 <= j < i ==> !keys@.contains(#[trigger] llm_pre_modifier_keys@[j]),
                decreases llm_pre_modifier_keys@.len() - i,
            {
                if holds_key(keys, llm_pre_modifier_keys[i]) {
                    assert(keys@.contains(llm_pre_modifier_keys@[i as int]));
                    return true;
                }
                i = i + 1;
            }
            false
        },
        None => false,
    }
}

/// An input device: its path, and the keys it has, if it could be opened and has any.
#[derive(Debug)]
pub struct FoundDevice {
    pub path: String,
    pub supported: Option<Vec<KeyCode>>,
}

/// Whether a device is listened to.
pub open spec fn device_matches(
    device: FoundDevice,
    talk_key: KeyCode,
    modifiers: Seq<KeyCode>,
) -> bool {
    event_device(device.path@) && (device.supported matches Some(keys) && capable(
        keys@,
        talk_key,
        modifiers,
    ))
}

/// The paths of the devices to listen to, in order, each once.
pub fn hotkey_device_paths(
    devices: &Vec<FoundDevice>,
    talk_key: KeyCode,
    llm_pre_modifier_keys: &Vec<KeyCode>,
) -> (r: Vec<String>)
    ensures
        ascending(texts(r@)),
        forall|p: Seq<char>| #[trigger]
            texts(r@).contains(p) <==> exists|i: int|
                0 <= i < devices@.len() && (#[trigger] devices@[i]).path@ == p && device_matches(
                    devices@[i],
                    talk_key,
                    llm_pre_modifier_keys@,
                ),
{
    let mut paths: Vec<String> = Vec::new();
    let mut n: usize = 0;
    assert(texts(paths@) =~= Seq::empty());
    while n < devices.len()
        invariant
            n <= devices@.len(),
            ascending(texts(paths@)),
            forall|p: Seq<char>| #[trigger]
                texts(paths@).contains(p) <==> exists|i: int|
                    0 <= i < n && (#[trigger] devices@[i]).path@ == p && device_matches(
                        devices@[i],
                        talk_key,
                        llm_pre_modifier_keys@,
                    ),
        decreases devices@.len() - n,
    {
        let device = &devices[n];
        let ghost before = texts(paths@);
        if is_event_device_path(device.path.as_str()) && is_hotkey_capable_device(
            &device.supported,
            talk_key,
            llm_pre_modifier_keys,
        ) {
            insert_in_order(&mut paths, device.path.as_str());
            proof {
                assert forall|p: Seq<char>| #[trigger] texts(paths@).contains(p) <==> exists|
                    i: int,
                |
                    0 <= i < n + 1 && (#[trigger] devices@[i]).path@ == p && device_matches(
                        devices@[i],
                        talk_key,
                        llm_pre_modifier_keys@,
                    ) by {
                    if p == device.path@ {
                        assert(devices@[n as int].path@ == p);
                    } else {
                        assert(texts(paths@).contains(p) <==> before.contains(p));
                    }
                }
            }
        }
        n = n + 1;
    }
    paths
}

/// How the search for a readable device ends.
#[derive(Debug)]
pub struct InputAccess {
    pub checked: bool,
    pub last_error: Option<(String, String)>,
}

/// What to do when no device can be read.
pub const INPUT_ACCESS_HINT: &'static str =
    "Add your user to the 'input' group with `sudo usermod -aG input $USER` and re-login.";

/// The message for a search that found nothing readable.
pub open spec fn no_access(a: InputAccess) -> Seq<char> {
    if !a.checked {
        "No /dev/input/event* devices found. "@ + INPUT_ACCESS_HINT@
    } else {
        match a.last_error {
            Some((path, error)) => "No readable /dev/input/event* devices (last tried "@ + path@
                + ": "@ + error@ + "). "@ + INPUT_ACCESS_HINT@,
            None => "No readable /dev/input/event* devices. "@ + INPUT_ACCESS_HINT@,
        }
    }
}

impl InputAccess {
    /// Nothing tried yet.
    pub fn new() -> (r: InputAccess)
        ensures
            r == (InputAccess { checked: false, last_error: None }),
    {
        InputAccess { checked: false, last_error: None }
    }

    /// An event device was tried, and failed to open with an error or opened. Tells whether the
    /// search is over.
    pub fn tried(&mut self, path: String, error: Option<String>) -> (r: bool)
        ensures
            r == (error is None),
            final(self).checked,
            final(self).last_error == match error {
                Some(e) => Some((path, e)),
                None => old(self).last_error,
            },
    {
        self.checked = true;
        match error {
            Some(e) => {
                self.last_error = Some((path, e));
                false
            },
            None => true,
        }
    }

    /// The message for a search that found nothing readable.
    pub fn failure(&self) -> (r: String)
        ensures
            r@ == no_access(*self),
    {
        if !self.checked {
            return crate::text::cat2("No /dev/input/event* devices found. ", INPUT_ACCESS_HINT);
        }
        match &self.last_error {
            Some((path, error)) => {
                let mut text = cat3(
                    "No readable /dev/input/event* devices (last tried ",
                    path.as_str(),
                    ": ",
                );
                text.push_str(error.as_str());
                text.push_str("). ");
                text.push_str(INPUT_ACCESS_HINT);
                text
            },
            None => crate::text::cat2(
                "No readable /dev/input/event* devices. ",
                INPUT_ACCESS_HINT,
            ),
        }
    }
}

// ---- the supervisor of the listeners

/// Which devices have a listener, which keys are down, and what has happened.
#[derive(Debug)]
pub struct HotkeySupervisor {
    pub active_paths: Vec<String>,
    pub state: HotkeySharedState,
    pub diagnostics: HotkeyDiagnostics,
}

/// What the end of a listener leads to.
#[derive(Debug, Clone, Copy, PartialEq, Eq, Structural)]
pub struct ListenerExitStep {
    pub reset: HotkeySharedStateReset,
    pub stop: bool,
}

/// The paths that are not active yet, each once.
pub open spec fn fresh_paths(paths: Seq<Seq<char>>, active: Seq<Seq<char>>) -> Seq<Seq<char>>
    decreases paths.len(),
{
    if paths.len() == 0 {
        Seq::empty()
    } else {
        let before = fresh_paths(paths.drop_last(), active);
        if active.contains(paths.last()) || before.contains(paths.last()) {
            before
        } else {
            before.push(paths.last())
        }
    }
}

/// The paths but one.
pub open spec fn without_path(paths: Seq<Seq<char>>, path: Seq<char>) -> Seq<Seq<char>>
    decreases paths.len(),
{
    if paths.len() == 0 {
        Seq::empty()
    } else {
        let before = without_path(paths.drop_last(), path);
        if paths.last() == path {
            before
        } else {
            before.push(paths.last())
        }
    }
}

fn holds_path(paths: &Vec<String>, path: &str) -> (r: bool)
    ensures
        r == texts(paths@).contains(path@),
{
    let mut i: usize = 0;
    while i < paths.len()
        invariant
            i <= paths@.len(),
            forall|j: int| 0 <= j < i ==> texts(paths@)[j] != path@,
        decreases paths@.len() - i,
    {
        if same(paths[i].as_str(), path) {
            assert(texts(paths@)[i as int] == path@);
            return true;
        }
        i = i + 1;
    }
    false
}

impl HotkeySupervisor {
    /// No listener yet.
    pub fn new() -> (r: HotkeySupervisor)
        ensures
            r.active_paths@.len() == 0,
            r.state.keys() == (KeysDown { talk: 0, modifiers: Map::empty() }),
            r.diagnostics == nothing_noted(),
    {
        HotkeySupervisor {
            active_paths: Vec::new(),
            state: HotkeySharedState::default(),
            diagnostics: HotkeyDiagnostics::default(),
        }
    }

    /// A scan found these devices. Gives those that now get a listener.
    pub fn scanned(&mut self, paths: &Vec<String>) -> (r: Vec<String>)
        ensures
            texts(r@) == fresh_paths(texts(paths@), texts(old(self).active_paths@)),
            texts(final(self).active_paths@) == texts(old(self).active_paths@) + texts(r@),
            final(self).state == old(self).state,
            final(self).diagnostics == (HotkeyDiagnostics {
                listener_start_total: counted(
                    old(self).diagnostics.listener_start_total,
                    r@.len() as u64,
                ),
                ..scan_noted(old(self).diagnostics, paths@.len() as u64)
            }),
    {
        let total: usize = paths.len();
        self.diagnostics.note_scan(total as u64);
        let mut fresh: Vec<String> = Vec::new();
        let mut i: usize = 0;
        let ghost old_active = texts(old(self).active_paths@);
        let ghost noted = self.diagnostics;
        assert(texts(paths@).take(0) =~= Seq::empty());
        assert(texts(fresh@) =~= Seq::empty());
        assert(texts(self.active_paths@) =~= old_active + texts(fresh@));
        while i < paths.len()
            invariant
                i <= paths@.len(),
                fresh@.len() <= i,
                old_active == texts(old(self).active_paths@),
                texts(fresh@) == fresh_paths(texts(paths@).take(i as int), old_active),
                texts(self.active_paths@) == old_active + texts(fresh@),
                self.state == old(self).state,
                self.diagnostics == (HotkeyDiagnostics {
                    listener_start_total: counted(
                        noted.listener_start_total,
                        fresh@.len() as u64,
                    ),
                    ..noted
                }),
            decreases paths@.len() - i,
        {
            let ghost before = texts(fresh@);
            assert(texts(paths@).take(i + 1).drop_last() =~= texts(paths@).take(i as int));
            assert(texts(paths@).take(i + 1).last() == paths@[i as int]@);
            let path = paths[i].as_str();
            let known = holds_path(&self.active_paths, path);
            proof {
                lemma_in_either(old_active, before, path@);
            }
            if !known {
                let ghost active_before = texts(self.active_paths@);
                self.active_paths.push(path.to_owned());
                fresh.push(path.to_owned());
                self.diagnostics.note_listener_started();
                proof {
                    assert(texts(fresh@) =~= before.push(path@));
                    assert(texts(self.active_paths@) =~= active_before.push(path@));
                    assert(old_active + texts(fresh@) =~= active_before.push(path@));
                }
            }
            i = i + 1;
        }
        assert(texts(paths@).take(i as int) =~= texts(paths@));
        fresh
    }

    /// A listener ended. All presses are forgotten, as a key may have stuck; the supervisor
    /// stops when nobody takes events any more.
    pub fn listener_exited(&mut self, path: &str, reason: &ListenerExitReason) -> (r:
        ListenerExitStep)
        ensures
            texts(final(self).active_paths@) == without_path(
                texts(old(self).active_paths@),
                path@,
            ),
            final(self).diagnostics == exit_noted(old(self).diagnostics, *reason),
            final(self).state.keys() == (KeysDown { talk: 0, modifiers: Map::empty() }),
            r.reset.talk_down_count == old(self).state.keys().talk,
            r.reset.pre_modifier_down_count == press_count(
                modifier_total(old(self).state.keys().modifiers),
            ),
            r.stop == (*reason is ChannelClosed),
    {
        let mut kept: Vec<String> = Vec::new();
        let mut i: usize = 0;
        assert(texts(self.active_paths@).take(0) =~= Seq::empty());
        assert(texts(kept@) =~= Seq::empty());
        while i < self.active_paths.len()
            invariant
                i <= self.active_paths@.len(),
                *self == *old(self),
                texts(kept@) == without_path(texts(self.active_paths@).take(i as int), path@),
            decreases self.active_paths@.len() - i,
        {
            let ghost all = texts(self.active_paths@);
            let ghost before = texts(kept@);
            assert(all.take(i + 1).drop_last() =~= all.take(i as int));
            assert(all.take(i + 1).last() == self.active_paths@[i as int]@);
            if !same(self.active_paths[i].as_str(), path) {
                kept.push(self.active_paths[i].as_str().to_owned());
                assert(texts(kept@) =~= before.push(self.active_paths@[i as int]@));
            }
            i = i + 1;
        }
        assert(texts(self.active_paths@).take(i as int) =~= texts(self.active_paths@));
        self.active_paths = kept;
        self.diagnostics.note_listener_exit(reason);
        let reset = self.state.reset();
        let stop = match reason {
            ListenerExitReason::ChannelClosed => true,
            _ => false,
        };
        ListenerExitStep { reset, stop }
    }

    /// Takes a key event of some listener, and gives what is to be reported.
    pub fn key_event(
        &mut self,
        talk_key: KeyCode,
        llm_pre_modifier_keys: &Vec<KeyCode>,
        key: KeyCode,
        value: i32,
    ) -> (r: Option<HotkeyEvent>)
        ensures
            final(self).active_paths == old(self).active_paths,
            (final(self).state.keys(), r) == keys_next(
                old(self).state.keys(),
                talk_key,
                llm_pre_modifier_keys@,
                key,
                value as int,
            ),
            final(self).diagnostics == ({
                let raw = raw_noted(
                    old(self).diagnostics,
                    talk_key,
                    llm_pre_modifier_keys@,
                    key,
                    value as int,
                ).0;
                match r {
                    Some(event) => event_noted(raw, event),
                    None => raw,
                }
            }),
    {
        if !record_raw_key_event(
            &mut self.diagnostics,
            talk_key,
            llm_pre_modifier_keys,
            key,
            value,
        ) {
            proof {
                law_ignored_key_events_change_nothing(
                    old(self).state.keys(),
                    old(self).diagnostics,
                    talk_key,
                    llm_pre_modifier_keys@,
                    key,
                    value as int,
                );
            }
            return None;
        }
        let event = derive_hotkey_event(
            &mut self.state,
            talk_key,
            llm_pre_modifier_keys,
            key,
            value,
        );
        if let Some(e) = event {
            self.diagnostics.note_emitted_event(e);
        }
        event
    }
}

proof fn lemma_in_either(a: Seq<Seq<char>>, b: Seq<Seq<char>>, x: Seq<char>)
    ensures
        (a + b).contains(x) <==> a.contains(x) || b.contains(x),
{
    if a.contains(x) {
        let i = choose|i: int| 0 <= i < a.len() && a[i] == x;
        assert((a + b)[i] == x);
    }
    if b.contains(x) {
        let i = choose|i: int| 0 <= i < b.len() && b[i] == x;
        assert((a + b)[a.len() + i] == x);
    }
    if (a + b).contains(x) {
        let i = choose|i: int| 0 <= i < (a + b).len() && (a + b)[i] == x;
        if i < a.len() {
            assert(a[i] == x);
        } else {
            assert(b[i - a.len()] == x);
        }
    }
}

/// A scan gives a listener to exactly the found devices that have none.
pub proof fn law_scan_starts_exactly_the_missing_listeners(
    paths: Seq<Seq<char>>,
    active: Seq<Seq<char>>,
    path: Seq<char>,
)
    ensures
        fresh_paths(paths, active).contains(path) <==> paths.contains(path) && !active.contains(
            path,
        ),
        fresh_paths(paths, active).no_duplicates(),
    decreases paths.len(),
{
    if paths.len() > 0 {
        let rest = paths.drop_last();
        law_scan_starts_exactly_the_missing_listeners(rest, active, path);
        law_scan_starts_exactly_the_missing_listeners(rest, active, paths.last());
        let before = fresh_paths(rest, active);
        let last = paths.last();
        assert(paths =~= rest.push(last));
        if rest.contains(path) {
            let i = choose|i: int| 0 <= i < rest.len() && rest[i] == path;
            assert(paths[i] == path);
        }
        if paths.contains(path) && path != last {
            let i = choose|i: int| 0 <= i < paths.len() && paths[i] == path;
            assert(rest[i] == path);
        }
        assert(paths[paths.len() - 1] == last);
        if !(active.contains(last) || before.contains(last)) {
            let after = before.push(last);
            assert(after[before.len() as int] == last);
            if before.contains(path) {
                let i = choose|i: int| 0 <= i < before.len() && before[i] == path;
                assert(after[i] == path);
            }
            if after.contains(path) && path != last {
                let i = choose|i: int| 0 <= i < after.len() && after[i] == path;
                assert(before[i] == path);
            }
            assert forall|i: int, j: int| 0 <= i < after.len() && 0 <= j < after.len() && i
                != j implies after[i] != after[j] by {
                if i < before.len() && j < before.len() {
                    assert(before[i] != before[j]);
                } else if i < before.len() {
                    assert(before.contains(before[i]));
                } else {
                    assert(before.contains(before[j]));
                }
            }
        }
    }
}

/// A device whose listener ended gets a new one when a scan finds it again.
pub proof fn law_lost_devices_come_back(
    paths: Seq<Seq<char>>,
    active: Seq<Seq<char>>,
    path: Seq<char>,
)
    requires
        paths.contains(path),
    ensures
        fresh_paths(paths, without_path(active, path)).contains(path),
{
    lemma_without_path(active, path);
    law_scan_starts_exactly_the_missing_listeners(paths, without_path(active, path), path);
}

proof fn lemma_without_path(paths: Seq<Seq<char>>, path: Seq<char>)
    ensures
        !without_path(paths, path).contains(path),
    decreases paths.len(),
{
    if paths.len() > 0 {
        lemma_without_path(paths.drop_last(), path);
        let before = without_path(paths.drop_last(), path);
        if without_path(paths, path).contains(path) {
            let w = without_path(paths, path);
            let i = choose|i: int| 0 <= i < w.len() && w[i] == path;
            if i < before.len() {
                assert(before[i] == path);
            }
        }
    }
}

// ---- what the talk key is for

/// A key name stands for one key: whatever its case and the white space around it, each of the
/// six keys has its own names, and any other name is refused.
pub proof fn law_key_names_stand_for_their_keys(name: Seq<char>)
    ensures
        ({
            let n = uppered(trim(name));
            let right_ctrl = n == "KEY_RIGHTCTRL"@ || n == "RIGHTCTRL"@ || n == "RIGHT_CTRL"@;
            let left_ctrl = n == "KEY_LEFTCTRL"@ || n == "LEFTCTRL"@ || n == "LEFT_CTRL"@;
            let right_alt = n == "KEY_RIGHTALT"@ || n == "RIGHTALT"@ || n == "RIGHT_ALT"@;
            let left_alt = n == "KEY_LEFTALT"@ || n == "LEFTALT"@ || n == "LEFT_ALT"@;
            let right_shift = n == "KEY_RIGHTSHIFT"@ || n == "RIGHTSHIFT"@ || n == "RIGHT_SHIFT"@;
            let left_shift = n == "KEY_LEFTSHIFT"@ || n == "LEFTSHIFT"@ || n == "LEFT_SHIFT"@;
            &&& parsed_key(name) is Ok <==> right_ctrl || left_ctrl || right_alt || left_alt
                || right_shift || left_shift
            &&& parsed_key(name) matches Ok(key) ==> {
                &&& key.code == 97 || key.code == 29 || key.code == 100 || key.code == 56
                    || key.code == 54 || key.code == 42
                &&& key.code == 97 ==> right_ctrl
                &&& key.code == 29 ==> left_ctrl
                &&& key.code == 100 ==> right_alt
                &&& key.code == 56 ==> left_alt
                &&& key.code == 54 ==> right_shift
                &&& key.code == 42 ==> left_shift
            }
            &&& parsed_key(name) matches Err(why) ==> why == "unsupported key name '"@ + n + "'"@
        }),
{
}

/// Two names that differ only in case and in the white space around them stand for the same.
pub proof fn law_key_names_ignore_case(a: Seq<char>, b: Seq<char>)
    requires
        uppered(trim(a)) == uppered(trim(b)),
    ensures
        parsed_key(a) == parsed_key(b),
        parsed_keys(a) == parsed_keys(b),
{
}

/// A name without a side stands for both keys of its kind; a name of one key for that key alone.
pub proof fn law_modifier_names_stand_for_both_sides(name: Seq<char>)
    ensures
        ({
            let n = uppered(trim(name));
            &&& n == "KEY_SHIFT"@ || n == "SHIFT"@ || n == "ANY_SHIFT"@ ==> (parsed_keys(name)
                matches Ok(keys) && keys.len() == 2 && keys[0].code == 42 && keys[1].code == 54)
            &&& n == "KEY_ALT"@ || n == "ALT"@ || n == "ANY_ALT"@ ==> (parsed_keys(name) matches Ok(
                keys,
            ) && keys.len() == 2 && keys[0].code == 56 && keys[1].code == 100)
            &&& !(n == "KEY_SHIFT"@ || n == "SHIFT"@ || n == "ANY_SHIFT"@ || n == "KEY_ALT"@ || n
                == "ALT"@ || n == "ANY_ALT"@) ==> match parsed_key(name) {
                Ok(key) => parsed_keys(name) matches Ok(keys) && keys.len() == 1 && keys[0] == key,
                Err(why) => parsed_keys(name) == Err::<Seq<KeyCode>, Seq<char>>(why),
            }
        }),
{
    reveal_strlit("KEY_SHIFT");
    reveal_strlit("SHIFT");
    reveal_strlit("ANY_SHIFT");
    reveal_strlit("KEY_ALT");
    reveal_strlit("ALT");
    reveal_strlit("ANY_ALT");
    assert("KEY_SHIFT"@.len() == 9 && "SHIFT"@.len() == 5 && "ANY_SHIFT"@.len() == 9
        && "KEY_ALT"@.len() == 7 && "ALT"@.len() == 3 && "ANY_ALT"@.len() == 7);
}

/// The talk key starts something where it was up on all keyboards and ends it where it comes up
/// on the last: pressed with no modifier down it starts a dictation, with one down a question.
pub proof fn law_talk_key_starts_and_ends(
    k: KeysDown,
    talk_key: KeyCode,
    modifiers: Seq<KeyCode>,
    code: u16,
)
    requires
        !modifiers.contains(talk_key),
    ensures
        k.talk == 0 && k.modifiers.dom().contains(code) ==> keys_next(
            k,
            talk_key,
            modifiers,
            talk_key,
            1,
        ).1 == Some(HotkeyEvent::Down { intent: HotkeyIntent::LlmQuery }),
        k.talk == 0 && (forall|c: u16| !(#[trigger] k.modifiers.dom().contains(c))) ==> keys_next(
            k,
            talk_key,
            modifiers,
            talk_key,
            1,
        ).1 == Some(HotkeyEvent::Down { intent: HotkeyIntent::Dictate }),
        k.talk > 0 ==> keys_next(k, talk_key, modifiers, talk_key, 1).1 is None,
        k.talk == 1 ==> keys_next(k, talk_key, modifiers, talk_key, 0).1 == Some(HotkeyEvent::Up),
        k.talk != 1 ==> keys_next(k, talk_key, modifiers, talk_key, 0).1 is None,
        k.talk < usize::MAX ==> keys_next(k, talk_key, modifiers, talk_key, 1).0.talk == k.talk + 1,
        k.talk > 0 ==> keys_next(k, talk_key, modifiers, talk_key, 0).0.talk == k.talk - 1,
        keys_next(k, talk_key, modifiers, talk_key, 1).0.modifiers == k.modifiers,
        keys_next(k, talk_key, modifiers, talk_key, 0).0.modifiers == k.modifiers,
{
}

/// A modifier that is held turns the next press of the talk key into a question, and reports
/// nothing by itself; once it is let go the press is a dictation again.
pub proof fn law_modifier_asks_a_question(talk_key: KeyCode, modifiers: Seq<KeyCode>, key: KeyCode)
    requires
        modifiers.contains(key),
        !modifiers.contains(talk_key),
    ensures
        ({
            let none = KeysDown { talk: 0, modifiers: Map::empty() };
            let held = keys_next(none, talk_key, modifiers, key, 1);
            let let_go = keys_next(held.0, talk_key, modifiers, key, 0);
            &&& held.1 is None
            &&& let_go.1 is None
            &&& keys_next(held.0, talk_key, modifiers, talk_key, 1).1 == Some(
                HotkeyEvent::Down { intent: HotkeyIntent::LlmQuery },
            )
            &&& keys_next(let_go.0, talk_key, modifiers, talk_key, 1).1 == Some(
                HotkeyEvent::Down { intent: HotkeyIntent::Dictate },
            )
        }),
{
    let none = KeysDown { talk: 0, modifiers: Map::<u16, usize>::empty() };
    let held = keys_next(none, talk_key, modifiers, key, 1);
    assert(held.0.modifiers.dom().contains(key.code));
    let let_go = keys_next(held.0, talk_key, modifiers, key, 0);
    assert forall|c: u16| !(#[trigger] let_go.0.modifiers.dom().contains(c)) by {}
}

/// Any other key changes nothing and reports nothing.
pub proof fn law_other_keys_do_nothing(
    k: KeysDown,
    talk_key: KeyCode,
    modifiers: Seq<KeyCode>,
    key: KeyCode,
    value: int,
)
    requires
        key != talk_key,
        !modifiers.contains(key),
    ensures
        keys_next(k, talk_key, modifiers, key, value).0 == k,
        keys_next(k, talk_key, modifiers, key, value).1 is None,
{
}

/// A keyboard will do where it has the talk key or one of the modifiers, and only there; one
/// whose keys are not known will not.
pub proof fn law_keyboard_has_a_key_of_ours(
    supported: &Option<Vec<KeyCode>>,
    talk_key: KeyCode,
    modifiers: &Vec<KeyCode>,
    key: KeyCode,
    r: bool,
)
    requires
        call_ensures(is_hotkey_capable_device, (supported, talk_key, modifiers), r),
    ensures
        supported is None ==> !r,
        supported matches Some(keys) ==> keys@.contains(talk_key) ==> r,
        supported matches Some(keys) ==> keys@.contains(key) && modifiers@.contains(key) ==> r,
        supported matches Some(keys) ==> keys@.len() == 0 ==> !r,
{
    if let Some(keys) = supported {
        if keys@.contains(key) && modifiers@.contains(key) {
            let i = choose|i: int| 0 <= i < modifiers@.len() && modifiers@[i] == key;
            assert(keys@.contains(modifiers@[i]));
        }
    }
}

/// What is noted of presses, releases, scans and listeners is counted under its own head and
/// under no other.
pub proof fn law_hotkey_news_is_counted_once(
    event: HotkeyEvent,
    reason: &ListenerExitReason,
    matching: u64,
)
    ensures
        forall|d: &mut HotkeyDiagnostics, r: ()| #[trigger]
            call_ensures(HotkeyDiagnostics::note_emitted_event, (d, event), r) ==> {
                &&& final(d).talk_down_emitted_total != d.talk_down_emitted_total <==> event is Down
                &&& final(d).talk_up_emitted_total != d.talk_up_emitted_total <==> event is Up
                &&& final(d).talk_down_llm_query_emitted_total
                    != d.talk_down_llm_query_emitted_total <==> event == (HotkeyEvent::Down {
                    intent: HotkeyIntent::LlmQuery,
                })
                &&& final(d).listener_exit_total == d.listener_exit_total
            },
        forall|d: &mut HotkeyDiagnostics, r: ()| #[trigger]
            call_ensures(HotkeyDiagnostics::note_listener_exit, (d, reason), r) ==> {
                &&& final(d).listener_exit_total != d.listener_exit_total
                &&& final(d).listener_open_error_total != d.listener_open_error_total <==> *reason
                    is OpenError
                &&& final(d).listener_fetch_error_total != d.listener_fetch_error_total
                    <==> *reason is FetchError
                &&& final(d).listener_task_join_error_total != d.listener_task_join_error_total
                    <==> *reason is TaskJoinError
                &&& final(d).talk_down_emitted_total == d.talk_down_emitted_total
            },
        forall|d: &mut HotkeyDiagnostics, r: ()| #[trigger]
            call_ensures(HotkeyDiagnostics::note_scan, (d, matching), r) ==> {
                &&& final(d).scan_runs_total != d.scan_runs_total
                &&& d.scan_matching_device_total + matching <= u64::MAX
                    ==> final(d).scan_matching_device_total == d.scan_matching_device_total
                    + matching
                &&& final(d).listener_exit_total == d.listener_exit_total
            },
{
}

} // verus!

//! The sound that is heard when a text has been injected.
use vstd::prelude::*;

use crate::text::{
    cat2, cat3, chars_of, contains, decimal2, holds_text, opt_string, print_two_digits,
    texts,
};

verus! {

/// What is played, with what, and how loud.
#[derive(Debug)]
pub struct AudioFeedback {
    pub enabled: bool,
    pub player_binary: Option<String>,
    pub sound_path: Option<String>,
    pub volume: u8,
}

/// The players, in order of preference.
pub open spec fn player_names() -> Seq<Seq<char>> {
    seq!["pw-play"@, "paplay"@, "aplay"@]
}

/// The sounds that are looked for everywhere, in order of preference.
pub open spec fn default_sounds() -> Seq<Seq<char>> {
    seq![
        "sounds/completion.ogg"@,
        "../sounds/completion.ogg"@,
        "/usr/share/sounds/freedesktop/stereo/complete.oga"@,
        "/usr/share/sounds/freedesktop/stereo/message.oga"@,
        "/usr/share/sounds/freedesktop/stereo/bell.oga"@,
    ]
}

/// A relative path below a directory.
pub open spec fn below_dir(dir: Seq<char>, relative: Seq<char>) -> Seq<char> {
    if dir.len() == 0 || dir.last() == '/' {
        dir + relative
    } else {
        dir + "/"@ + relative
    }
}

/// The sounds that are looked for, in order of preference: the chosen one, those beside the
/// program, and the default ones.
pub open spec fn sound_choices(custom: Option<Seq<char>>, exe_dir: Option<Seq<char>>) -> Seq<
    Seq<char>,
> {
    let chosen = match custom {
        Some(path) => seq![path],
        None => Seq::empty(),
    };
    let beside = match exe_dir {
        Some(dir) => seq![
            below_dir(dir, "sounds/completion.ogg"@),
            below_dir(dir, "../sounds/completion.ogg"@),
        ],
        None => Seq::empty(),
    };
    chosen + beside + default_sounds()
}

/// The first of the choices that is there.
pub open spec fn first_present(choices: Seq<Seq<char>>, present: Seq<bool>) -> Option<Seq<char>>
    decreases choices.len(),
{
    if choices.len() == 0 || present.len() == 0 {
        None
    } else if present[0] {
        Some(choices[0])
    } else {
        first_present(choices.skip(1), present.skip(1))
    }
}

/// Whether a path leads to a file of a name: the name is its last part.
pub open spec fn leads_to(path: Seq<char>, name: Seq<char>) -> bool {
    let start = path.len() - name.len();
    start >= 0 && path.skip(start) == name && (start == 0 || path[start - 1] == '/')
}

/// The first of the answers that found something.
pub open spec fn first_of(found: Seq<Option<Seq<char>>>) -> Option<Seq<char>>
    decreases found.len(),
{
    if found.len() == 0 {
        None
    } else if found[0] is Some {
        found[0]
    } else {
        first_of(found.skip(1))
    }
}

/// The path of a program, if it is found.
///
/// Calls `which::which`, which looks for an executable file of that name in the directories of
/// the search path. A name without a separator is joined to a directory, so what is found ends
/// in that name: alone, or behind a separator. Of a name with a separator nothing is said, nor
/// whether a program is found and in which directory: it rests on the machine's files.
#[verifier::external_body]
fn find_program(name: &str) -> (r: Option<String>)
    ensures
        !name@.contains('/') ==> (r matches Some(path) ==> leads_to(path@, name@)),
{
    match which::which(name) {
        Ok(path) => Some(path.to_string_lossy().into_owned()),
        Err(_) => None,
    }
}

/// Whether there is a file at a path.
///
/// Calls `std::path::Path::exists`. Nothing is said of the result: it rests on the machine's
/// files.
#[verifier::external_body]
fn path_exists(path: &str) -> (r: bool) {
    std::path::Path::new(path).exists()
}

fn place_below(dir: &str, relative: &str) -> (r: String)
    ensures
        r@ == below_dir(dir@, relative@),
{
    let chars = chars_of(dir);
    if chars.len() == 0 || chars[chars.len() - 1] == '/' {
        cat2(dir, relative)
    } else {
        cat3(dir, "/", relative)
    }
}

/// The sounds that are looked for, in order of preference.
pub fn sound_candidates(custom: &Option<String>, exe_dir: &Option<String>) -> (r: Vec<String>)
    ensures
        texts(r@) == sound_choices(opt_string(*custom), opt_string(*exe_dir)),
{
    let mut paths: Vec<String> = Vec::new();
    if let Some(path) = custom {
        paths.push(path.as_str().to_owned());
    }
    if let Some(dir) = exe_dir {
        paths.push(place_below(dir.as_str(), "sounds/completion.ogg"));
        paths.push(place_below(dir.as_str(), "../sounds/completion.ogg"));
    }
    paths.push("sounds/completion.ogg".to_owned());
    paths.push("../sounds/completion.ogg".to_owned());
    paths.push("/usr/share/sounds/freedesktop/stereo/complete.oga".to_owned());
    paths.push("/usr/share/sounds/freedesktop/stereo/message.oga".to_owned());
    paths.push("/usr/share/sounds/freedesktop/stereo/bell.oga".to_owned());
    assert(texts(paths@) =~= sound_choices(opt_string(*custom), opt_string(*exe_dir)));
    paths
}

/// The first of the choices that is there.
pub fn pick_present(choices: &Vec<String>, present: &Vec<bool>) -> (r: Option<String>)
    ensures
        opt_string(r) == first_present(texts(choices@), present@),
{
    let mut i: usize = 0;
    assert(texts(choices@).skip(0) =~= texts(choices@));
    assert(present@.skip(0) =~= present@);
    while i < choices.len() && i < present.len()
        invariant
            i <= choices@.len(),
            i <= present@.len(),
            first_present(texts(choices@), present@) == first_present(
                texts(choices@).skip(i as int),
                present@.skip(i as int),
            ),
        decreases choices@.len() - i,
    {
        let ghost c = texts(choices@).skip(i as int);
        let ghost p = present@.skip(i as int);
        assert(c[0] == choices@[i as int]@);
        assert(p[0] == present@[i as int]);
        if present[i] {
            return Some(choices[i].as_str().to_owned());
        }
        assert(c.skip(1) =~= texts(choices@).skip(i + 1));
        assert(p.skip(1) =~= present@.skip(i + 1));
        i = i + 1;
    }
    None
}

/// Where a sound comes from is one of the places that were looked at.
pub proof fn law_picked_is_present(choices: Seq<Seq<char>>, present: Seq<bool>)
    ensures
        first_present(choices, present) matches Some(picked) ==> exists|i: int|
            0 <= i < choices.len() && i < present.len() && present[i] && #[trigger] choices[i]
                == picked && forall|j: int| 0 <= j < i ==> !present[j],
    decreases choices.len(),
{
    if choices.len() > 0 && present.len() > 0 {
        if present[0] {
            assert(choices[0] == first_present(choices, present)->0);
        } else {
            law_picked_is_present(choices.skip(1), present.skip(1));
            if first_present(choices, present) is Some {
                let c = choices.skip(1);
                let p = present.skip(1);
                let picked = first_present(choices, present)->0;
                let i = choose|i: int|
                    0 <= i < c.len() && i < p.len() && p[i] && #[trigger] c[i] == picked && forall|
                        j: int,
                    |
                        0 <= j < i ==> !p[j];
                assert(choices[i + 1] == picked);
                assert forall|j: int| 0 <= j < i + 1 implies !present[j] by {
                    if j > 0 {
                        assert(present[j] == p[j - 1]);
                    }
                }
            }
        }
    }
}

/// A sound that exists and was asked for is the one that is played.
pub proof fn law_custom_sound_comes_first(
    custom: Seq<char>,
    exe_dir: Option<Seq<char>>,
    present: Seq<bool>,
)
    requires
        present.len() == sound_choices(Some(custom), exe_dir).len(),
        present[0],
    ensures
        first_present(sound_choices(Some(custom), exe_dir), present) == Some(custom),
{
    assert(sound_choices(Some(custom), exe_dir)[0] == custom);
}

impl AudioFeedback {
    /// Feedback with what was found: it is heard only with a player and a sound.
    pub fn with_found(
        enabled: bool,
        player_binary: Option<String>,
        sound_path: Option<String>,
        volume: u8,
    ) -> (r: AudioFeedback)
        ensures
            r.volume == volume,
            !enabled ==> !r.enabled && r.player_binary is None && r.sound_path is None,
            enabled ==> r.enabled == (player_binary is Some && sound_path is Some)
                && r.player_binary == player_binary && r.sound_path == sound_path,
    {
        if !enabled {
            return AudioFeedback { enabled: false, player_binary: None, sound_path: None, volume };
        }
        let heard = player_binary.is_some() && sound_path.is_some();
        AudioFeedback { enabled: heard, player_binary, sound_path, volume }
    }

    /// Feedback with what is found on this machine. `exe_dir` is the directory of the program.
    /// When it is not enabled nothing is looked for.
    pub fn new(
        enabled: bool,
        custom_sound_path: Option<String>,
        exe_dir: Option<String>,
        volume: u8,
    ) -> (r: AudioFeedback)
        ensures
            r.volume == volume,
            !enabled ==> !r.enabled && r.player_binary is None && r.sound_path is None,
            enabled ==> r.enabled == (r.player_binary is Some && r.sound_path is Some),
            r.player_binary matches Some(path) ==> exists|i: int|
                0 <= i < player_names().len() && leads_to(path@, #[trigger] player_names()[i]),
            r.sound_path matches Some(path) ==> sound_choices(
                opt_string(custom_sound_path),
                opt_string(exe_dir),
            ).contains(path@),
    {
        if !enabled {
            return AudioFeedback::with_found(false, None, None, volume);
        }
        let player = find_audio_player();
        let sound = resolve_sound_path(&custom_sound_path, &exe_dir);
        AudioFeedback::with_found(true, player, sound, volume)
    }

    /// Whether the sound is heard.
    pub fn is_enabled(&self) -> (r: bool)
        ensures
            r == self.enabled,
    {
        self.enabled
    }

    /// The program and the arguments that play the sound, if it is heard. Only one of the
    /// players can be told how loud.
    pub fn completion_command(&self) -> (r: Option<(String, Vec<String>)>)
        ensures
            match r {
                Some((program, args)) => self.enabled && self.player_binary is Some
                    && self.sound_path is Some && program@ == self.player_binary->0@ && texts(args@)
                    == play_args(program@, self.sound_path->0@, self.volume),
                None => !(self.enabled && self.player_binary is Some && self.sound_path is Some),
            },
    {
        if !self.enabled {
            return None;
        }
        match (&self.player_binary, &self.sound_path) {
            (Some(player), Some(sound)) => {
                let mut args: Vec<String> = Vec::new();
                args.push(sound.as_str().to_owned());
                if contains(player.as_str(), "pw-play") && self.volume < 100 {
                    args.push("--volume".to_owned());
                    args.push(cat2("0.", print_two_digits(self.volume as u64).as_str()));
                }
                assert(texts(args@) =~= play_args(player@, sound@, self.volume));
                Some((player.as_str().to_owned(), args))
            },
            _ => None,
        }
    }
}

/// The arguments that make a player play a sound.
pub open spec fn play_args(player: Seq<char>, sound: Seq<char>, volume: u8) -> Seq<Seq<char>> {
    if holds_text(player, "pw-play"@) && volume < 100 {
        seq![sound, "--volume"@, "0."@ + decimal2(volume as nat)]
    } else {
        seq![sound]
    }
}

/// The players, in order of preference.
pub fn audio_players() -> (r: Vec<String>)
    ensures
        texts(r@) == player_names(),
{
    let mut names: Vec<String> = Vec::new();
    names.push("pw-play".to_owned());
    names.push("paplay".to_owned());
    names.push("aplay".to_owned());
    assert(texts(names@) =~= player_names());
    names
}

/// The characters of each answer that found something.
pub open spec fn opt_texts(found: Seq<Option<String>>) -> Seq<Option<Seq<char>>> {
    found.map_values(|path: Option<String>| opt_string(path))
}

/// The first of the answers that found something.
pub fn pick_found(found: &Vec<Option<String>>) -> (r: Option<String>)
    ensures
        opt_string(r) == first_of(opt_texts(found@)),
{
    let mut i: usize = 0;
    assert(opt_texts(found@).skip(0) =~= opt_texts(found@));
    while i < found.len()
        invariant
            i <= found@.len(),
            first_of(opt_texts(found@)) == first_of(opt_texts(found@).skip(i as int)),
        decreases found@.len() - i,
    {
        let ghost rest = opt_texts(found@).skip(i as int);
        assert(rest[0] == opt_string(found@[i as int]));
        if let Some(path) = &found[i] {
            return Some(path.as_str().to_owned());
        }
        assert(rest.skip(1) =~= opt_texts(found@).skip(i + 1));
        i = i + 1;
    }
    None
}

/// What is picked was found for one of the names, and for none before it.
pub proof fn law_first_found_is_preferred(found: Seq<Option<Seq<char>>>)
    ensures
        match first_of(found) {
            Some(path) => exists|i: int|
                0 <= i < found.len() && #[trigger] found[i] == Some(path) && forall|j: int|
                    0 <= j < i ==> found[j] is None,
            None => forall|i: int| 0 <= i < found.len() ==> found[i] is None,
        },
    decreases found.len(),
{
    if found.len() > 0 {
        if found[0] is Some {
            assert(found[0] == Some(first_of(found)->0));
        } else {
            let rest = found.skip(1);
            law_first_found_is_preferred(rest);
            assert forall|j: int| 1 <= j < found.len() implies found[j] == rest[j - 1] by {}
            if first_of(found) is Some {
                let path = first_of(found)->0;
                let i = choose|i: int|
                    0 <= i < rest.len() && #[trigger] rest[i] == Some(path) && forall|j: int|
                        0 <= j < i ==> rest[j] is None;
                assert(found[i + 1] == Some(path));
            }
        }
    }
}

/// No player's name holds a separator.
proof fn lemma_players_are_plain_names()
    ensures
        forall|i: int|
            0 <= i < player_names().len() ==> !(#[trigger] player_names()[i]).contains('/'),
{
    reveal_strlit("pw-play");
    reveal_strlit("paplay");
    reveal_strlit("aplay");
    assert(!"pw-play"@.contains('/'));
    assert(!"paplay"@.contains('/'));
    assert(!"aplay"@.contains('/'));
}

/// The first player that is found, in order of preference.
fn find_audio_player() -> (r: Option<String>)
    ensures
        r matches Some(path) ==> exists|i: int|
            0 <= i < player_names().len() && leads_to(path@, #[trigger] player_names()[i]),
{
    let names = audio_players();
    proof {
        lemma_players_are_plain_names();
        assert forall|j: int| 0 <= j < names@.len() implies !(#[trigger] names@[j])@.contains(
            '/',
        ) by {
            assert(names@[j]@ == texts(names@)[j]);
        }
    }
    let mut found: Vec<Option<String>> = Vec::new();
    let mut i: usize = 0;
    while i < names.len()
        invariant
            i <= names@.len(),
            found@.len() == i,
            forall|j: int| 0 <= j < names@.len() ==> !(#[trigger] names@[j])@.contains('/'),
            forall|j: int|
                0 <= j < i ==> (opt_string(#[trigger] found@[j]) matches Some(path) ==> leads_to(
                    path,
                    names@[j]@,
                )),
        decreases names@.len() - i,
    {
        found.push(find_program(names[i].as_str()));
        i = i + 1;
    }
    let picked = pick_found(&found);
    proof {
        law_first_found_is_preferred(opt_texts(found@));
        if picked is Some {
            let k = choose|k: int|
                0 <= k < found@.len() && #[trigger] opt_texts(found@)[k] == opt_string(picked);
            assert(opt_string(found@[k]) == opt_string(picked));
            assert(leads_to(picked->0@, player_names()[k]));
        }
    }
    picked
}

/// The first sound that is found.
fn resolve_sound_path(custom: &Option<String>, exe_dir: &Option<String>) -> (r: Option<String>)
    ensures
        r matches Some(path) ==> sound_choices(opt_string(*custom), opt_string(*exe_dir)).contains(
            path@,
        ),
{
    let choices = sound_candidates(custom, exe_dir);
    let mut present: Vec<bool> = Vec::new();
    let mut i: usize = 0;
    while i < choices.len()
        invariant
            i <= choices@.len(),
            present@.len() == i,
        decreases choices@.len() - i,
    {
        present.push(path_exists(choices[i].as_str()));
        i = i + 1;
    }
    let picked = pick_present(&choices, &present);
    proof {
        law_picked_is_present(texts(choices@), present@);
    }
    picked
}

/// The sound is played as it is, with its volume only where the player can be told and it is not
/// full; the volume is written as hundredths.
pub proof fn law_player_is_told_sound_and_volume(player: Seq<char>, sound: Seq<char>, volume: u8)
    ensures
        play_args(player, sound, volume)[0] == sound,
        volume >= 100 || !holds_text(player, "pw-play"@) ==> play_args(player, sound, volume).len()
            == 1,
        volume < 100 && holds_text(player, "pw-play"@) ==> play_args(player, sound, volume).len()
            == 3 && play_args(player, sound, volume)[1] == "--volume"@,
        10 <= volume < 100 && holds_text(player, "pw-play"@) ==> play_args(
            player,
            sound,
            volume,
        )[2] == "0."@ + crate::text::decimal(volume as nat),
        volume < 10 && holds_text(player, "pw-play"@) ==> play_args(player, sound, volume)[2]
            == "0."@ + seq!['0', crate::text::digit(volume as int)],
{
}

/// The sound that was asked for is looked for first, then those beside the program, then the
/// common ones, all of which are always looked for.
pub proof fn law_sounds_are_looked_for_in_order(
    custom: Option<Seq<char>>,
    dir: Option<Seq<char>>,
)
    ensures
        ({
            let all = sound_choices(custom, dir);
            let a = if custom is Some {
                1int
            } else {
                0
            };
            let b = if dir is Some {
                2int
            } else {
                0
            };
            &&& all.len() == a + b + 5
            &&& custom is Some ==> all[0] == custom->0
            &&& dir is Some && dir->0.len() > 0 && dir->0.last() != '/' ==> all[a] == dir->0
                + "/"@ + "sounds/completion.ogg"@ && all[a + 1] == dir->0 + "/"@
                + "../sounds/completion.ogg"@
            &&& all[a + b] == "sounds/completion.ogg"@
            &&& all[a + b + 1] == "../sounds/completion.ogg"@
            &&& all[a + b + 2] == "/usr/share/sounds/freedesktop/stereo/complete.oga"@
            &&& all[a + b + 3] == "/usr/share/sounds/freedesktop/stereo/message.oga"@
            &&& all[a + b + 4] == "/usr/share/sounds/freedesktop/stereo/bell.oga"@
        }),
{
}

/// The players in order of preference.
pub proof fn law_players_in_order()
    ensures
        player_names().len() == 3,
        player_names()[0] == "pw-play"@,
        player_names()[1] == "paplay"@,
        player_names()[2] == "aplay"@,
{
}

/// A sound is played just where it is wanted and both a player and a sound were found, and it is
/// that player that is run.
pub proof fn law_found_sound_is_played(
    wanted: bool,
    player: Option<String>,
    sound: Option<String>,
    volume: u8,
    feedback: AudioFeedback,
    r: Option<(String, Vec<String>)>,
)
    requires
        call_ensures(AudioFeedback::with_found, (wanted, player, sound, volume), feedback),
        call_ensures(AudioFeedback::completion_command, (&feedback,), r),
    ensures
        r is Some <==> wanted && player is Some && sound is Some,
        r matches Some((program, args)) ==> program@ == player->0@ && texts(args@) == play_args(
            player->0@,
            sound->0@,
            volume,
        ),
{
}

} // verus!

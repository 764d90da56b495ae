//! Properties of play that hold across commands and states.
use crate::commands::{
    chosen, inventory_text, joined, ChooseCommand, Command, GameCommand, HelpCommand,
    InventoryCommand, LookCommand, QuitCommand, StatusCommand,
};
use crate::engine::{choice_lines, entered, scene_text, CommandOutcome};
use crate::errors::{game_error_text, GameErrorView, ParseErrorView};
use crate::scenario::{ending_label, Choice, Scene};
use crate::game::{initial_state, parse_error_text, turn};
use crate::parser::{blank, command_named, first_word, parsed_line, second_word};
use crate::scenario::{dangling_choice, find_scene, has_scene, lemma_find_scene, Scenario};
use crate::state::{no_duplicates, with_item, GameStateView};
use crate::text::{
    all_digits, decimal, digit_char, digit_value, digits_value, is_digit, is_space, skip_spaces,
    signed_decimal, skip_word, unsigned_digits, usize_of,
};
use vstd::prelude::*;

verus! {

/// Everything held before is still held after, in the same places.
pub open spec fn keeps_items(before: Seq<Seq<char>>, after: Seq<Seq<char>>) -> bool {
    &&& before.len() <= after.len()
    &&& forall|i: int| 0 <= i < before.len() ==> after[i] == before[i]
}

/// Picking up an item: afterwards it is held, nothing held before is lost, no
/// item is held twice if none was, and picking it up a second time changes
/// nothing.
pub proof fn law_pick_up(inventory: Seq<Seq<char>>, item: Seq<char>)
    ensures
        with_item(inventory, item).contains(item),
        keeps_items(inventory, with_item(inventory, item)),
        no_duplicates(inventory) ==> no_duplicates(with_item(inventory, item)),
        with_item(with_item(inventory, item), item) == with_item(inventory, item),
{
    let after = with_item(inventory, item);
    if !inventory.contains(item) {
        assert(after[inventory.len() as int] == item);
        assert(after.contains(item));
        if no_duplicates(inventory) {
            assert forall|i: int, j: int|
                0 <= i < after.len() && 0 <= j < after.len() && i != j implies after[i]
                != after[j] by {
                if i == inventory.len() {
                    assert(after[j] == inventory[j]);
                    if inventory[j] == item {
                        assert(inventory.contains(item));
                    }
                } else if j == inventory.len() {
                    assert(after[i] == inventory[i]);
                    if inventory[i] == item {
                        assert(inventory.contains(item));
                    }
                }
            }
        }
    }
}

/// Entering a scene keeps the player where they are and keeps what they hold;
/// it succeeds only with hit points left and ends the game only with none left;
/// and it never fails for an unknown scene when the scene exists.
pub proof fn law_entering(scenario: &Scenario, s: GameStateView)
    ensures
        entered(scenario, s).0.current_scene == s.current_scene,
        keeps_items(s.inventory, entered(scenario, s).0.inventory),
        no_duplicates(s.inventory) ==> no_duplicates(entered(scenario, s).0.inventory),
        entered(scenario, s).1 is Ok ==> entered(scenario, s).0.hp > 0,
        entered(scenario, s).1 == Err::<(), GameErrorView>(GameErrorView::GameOver)
            ==> entered(scenario, s).0.hp <= 0,
        has_scene(scenario.scenes@, s.current_scene) ==> !(entered(scenario, s).1 is Err
            && entered(scenario, s).1->Err_0 is UnknownScene),
{
    lemma_find_scene(scenario.scenes@, s.current_scene);
    match find_scene(scenario.scenes@, s.current_scene) {
        Some(i) => {
            let scene = scenario.scenes@[i];
            match scene.found_item {
                Some(item) => law_pick_up(s.inventory, item@),
                None => {},
            }
        },
        None => {},
    }
}

/// Only a choice changes the state: the other commands leave it as it was.
pub proof fn law_only_choices_change_state(cmd: Command, scenario: &Scenario, s: GameStateView)
    requires
        !(cmd is Choose),
    ensures
        cmd.effect(scenario, s).0 == s,
{
}

/// A refused choice (one that does not exist, or whose item the player lacks)
/// leaves the state as it was.
pub proof fn law_refused_choice_changes_nothing(scenario: &Scenario, s: GameStateView, index: int)
    requires
        chosen(scenario, s, index).1 == Err::<CommandOutcome, GameErrorView>(
            GameErrorView::InvalidChoice,
        ) || (chosen(scenario, s, index).1 is Err && chosen(scenario, s, index).1->Err_0 is MissingItem),
    ensures
        chosen(scenario, s, index).0 == s,
{
    match find_scene(scenario.scenes@, s.current_scene) {
        Some(i) => {
            let scene = scenario.scenes@[i];
            if !(index == 0 || index > scene.choices@.len()) {
                let choice = scene.choices@[index - 1];
                let moved = GameStateView { current_scene: choice.next@, ..s };
                law_entering(scenario, moved);
            }
        },
        None => {},
    }
}

/// No command ever drops an item: what was held is still held, in order.
pub proof fn law_items_are_never_lost(cmd: Command, scenario: &Scenario, s: GameStateView)
    ensures
        keeps_items(s.inventory, cmd.effect(scenario, s).0.inventory),
        no_duplicates(s.inventory) ==> no_duplicates(cmd.effect(scenario, s).0.inventory),
{
    match cmd {
        Command::Choose(c) => {
            match find_scene(scenario.scenes@, s.current_scene) {
                Some(i) => {
                    let scene = scenario.scenes@[i];
                    if !(c.index == 0 || c.index > scene.choices@.len()) {
                        let choice = scene.choices@[c.index - 1];
                        let moved = GameStateView { current_scene: choice.next@, ..s };
                        law_entering(scenario, moved);
                    }
                },
                None => {},
            }
        },
        _ => {},
    }
}

/// A move that goes through leaves the player with hit points to spare, and a
/// move that ends the game leaves them with none.
pub proof fn law_game_over_means_no_hit_points(scenario: &Scenario, s: GameStateView, index: int)
    ensures
        chosen(scenario, s, index).1 is Ok ==> chosen(scenario, s, index).0.hp > 0,
        chosen(scenario, s, index).1 == Err::<CommandOutcome, GameErrorView>(GameErrorView::GameOver)
            ==> chosen(scenario, s, index).0.hp <= 0,
{
    match find_scene(scenario.scenes@, s.current_scene) {
        Some(i) => {
            let scene = scenario.scenes@[i];
            if !(index == 0 || index > scene.choices@.len()) {
                let choice = scene.choices@[index - 1];
                let moved = GameStateView { current_scene: choice.next@, ..s };
                law_entering(scenario, moved);
            }
        },
        None => {},
    }
}

/// In a story that passes validation, a player who stands in a scene always
/// stands in one after any command, and no command fails for an unknown scene.
pub proof fn law_valid_story_has_no_dead_ends(cmd: Command, scenario: &Scenario, s: GameStateView)
    requires
        scenario.well_formed(),
        has_scene(scenario.scenes@, s.current_scene),
    ensures
        has_scene(scenario.scenes@, cmd.effect(scenario, s).0.current_scene),
        !(cmd.effect(scenario, s).1 is Err && cmd.effect(scenario, s).1->Err_0 is UnknownScene),
{
    lemma_find_scene(scenario.scenes@, s.current_scene);
    match cmd {
        Command::Choose(c) => {
            let index = c.index as int;
            let i = find_scene(scenario.scenes@, s.current_scene)->0;
            let scene = scenario.scenes@[i];
            if !(index == 0 || index > scene.choices@.len()) {
                let choice = scene.choices@[index - 1];
                assert(!dangling_choice(scenario.scenes@, i, index - 1));
                let moved = GameStateView { current_scene: choice.next@, ..s };
                law_entering(scenario, moved);
                lemma_find_scene(scenario.scenes@, choice.next@);
            }
        },
        _ => {},
    }
}

/// A story that passes validation starts in an existing scene.
pub proof fn law_valid_story_starts(scenario: &Scenario)
    requires
        scenario.well_formed(),
    ensures
        has_scene(scenario.scenes@, initial_state(scenario).current_scene),
        !(entered(scenario, initial_state(scenario)).1 is Err && entered(
            scenario,
            initial_state(scenario),
        ).1->Err_0 is UnknownScene),
{
    law_entering(scenario, initial_state(scenario));
}

proof fn lemma_digit_char(d: nat)
    requires
        d < 10,
    ensures
        is_digit(digit_char(d)),
        digit_value(digit_char(d)) == d,
{
}

proof fn lemma_decimal_digits(n: nat)
    ensures
        decimal(n).len() > 0,
        all_digits(decimal(n)),
        digits_value(decimal(n)) == n,
    decreases n,
{
    if n < 10 {
        lemma_digit_char(n);
        assert(decimal(n).drop_last() =~= Seq::<char>::empty());
        assert(digits_value(Seq::<char>::empty()) == 0);
        assert(digits_value(decimal(n)) == n);
    } else {
        lemma_decimal_digits(n / 10);
        lemma_digit_char(n % 10);
        let d = decimal(n);
        assert(d.drop_last() =~= decimal(n / 10));
        assert(forall|i: int| 0 <= i < d.len() - 1 ==> d[i] == decimal(n / 10)[i]);
        assert(d.last() == digit_char(n % 10));
        assert(n == (n / 10) * 10 + n % 10) by (nonlinear_arith);
        assert(digits_value(d) == digits_value(decimal(n / 10)) * 10 + digit_value(d.last()));
        assert(digit_value(d.last()) == n % 10);
        assert(digits_value(d) == (n / 10) as int * 10 + (n % 10) as int);
        assert(digits_value(d) == n);
    }
}

/// The number shown before a choice reads back as that number: the text that
/// `decimal` gives for any `usize` parses to it.
pub proof fn law_numbers_read_back(n: usize)
    ensures
        usize_of(decimal(n as nat)) == Some(n),
{
    lemma_decimal_digits(n as nat);
    let d = decimal(n as nat);
    assert(is_digit(d[0]));
    assert(unsigned_digits(d) == d);
}

/// The number shown before a choice, given to `choose`, names that choice.
pub proof fn law_shown_number_chooses(k: usize)
    ensures
        command_named("choose"@, Some(decimal(k as nat))) == Ok::<Command, ParseErrorView>(
            Command::Choose(ChooseCommand { index: k }),
        ),
{
    reveal_strlit("choose");
    reveal_strlit("look");
    reveal_strlit("inventory");
    reveal_strlit("status");
    reveal_strlit("help");
    reveal_strlit("quit");
    assert("choose"@.len() != "look"@.len());
    assert("choose"@[0] != "inventory"@[0]);
    assert("choose"@[0] != "status"@[0]);
    assert("choose"@[0] != "help"@[0]);
    assert("choose"@[0] != "quit"@[0]);
    law_numbers_read_back(k);
}

/// A turn ends the game exactly when its command quits, reaches an ending, or
/// leaves the player without hit points; a line that does not parse changes
/// nothing and ends nothing.
pub proof fn law_when_the_game_ends(
    scenario: &Scenario,
    s: GameStateView,
    parsed: Result<Command, ParseErrorView>,
)
    ensures
        turn(scenario, s, parsed).2 <==> (parsed is Ok && {
            let r = parsed->Ok_0.effect(scenario, s).1;
            ||| r == Ok::<CommandOutcome, GameErrorView>(CommandOutcome::Exit)
            ||| (r is Ok && r->Ok_0 is SceneEnded)
            ||| r == Err::<CommandOutcome, GameErrorView>(GameErrorView::GameOver)
        }),
        parsed is Err ==> turn(scenario, s, parsed).0 == s && turn(scenario, s, parsed).1
            == parse_error_text(parsed->Err_0),
{
}

proof fn lemma_shift_spaces(c: char, line: Seq<char>, i: int)
    requires
        0 <= i <= line.len(),
    ensures
        skip_spaces(seq![c] + line, i + 1) == skip_spaces(line, i) + 1,
        skip_word(seq![c] + line, i + 1) == skip_word(line, i) + 1,
    decreases line.len() - i,
{
    let t = seq![c] + line;
    if i < line.len() {
        assert(t[i + 1] == line[i]);
        lemma_shift_spaces(c, line, i + 1);
    }
}

/// Spaces before a command do not change what it parses to.
pub proof fn law_leading_space_is_ignored(c: char, line: Seq<char>)
    requires
        is_space(c),
    ensures
        parsed_line(seq![c] + line) == parsed_line(line),
{
    let t = seq![c] + line;
    lemma_shift_spaces(c, line, 0);
    assert(skip_spaces(t, 0) == skip_spaces(t, 1));
    let a = skip_spaces(line, 0);
    crate::text::lemma_skip_spaces_bounds(line, 0);
    if a < line.len() {
        lemma_shift_spaces(c, line, a);
        let b = skip_word(line, a);
        crate::text::lemma_skip_word_bounds(line, a);
        assert(t.subrange(a + 1, b + 1) =~= line.subrange(a, b));
        assert(first_word(t) == first_word(line));
        lemma_shift_spaces(c, line, b);
        let cc = skip_spaces(line, b);
        crate::text::lemma_skip_spaces_bounds(line, b);
        if cc < line.len() {
            lemma_shift_spaces(c, line, cc);
            crate::text::lemma_skip_word_bounds(line, cc);
            assert(t.subrange(cc + 1, skip_word(line, cc) + 1) =~= line.subrange(
                cc,
                skip_word(line, cc),
            ));
        }
        assert(second_word(t) == second_word(line));
    }
    assert(blank(t) == blank(line));
}

/// Scene `i` is the first scene whose id is `id`.
pub open spec fn first_with_id(scenes: Seq<Scene>, id: Seq<char>, i: int) -> bool {
    &&& 0 <= i < scenes.len()
    &&& scenes[i].id@ == id
    &&& forall|j: int| 0 <= j < i ==> (#[trigger] scenes[j]).id@ != id
}

proof fn lemma_first_with_id_found(scenes: Seq<Scene>, id: Seq<char>, i: int)
    requires
        first_with_id(scenes, id, i),
    ensures
        find_scene(scenes, id) == Some(i),
{
    lemma_find_scene(scenes, id);
    match find_scene(scenes, id) {
        Some(k) => {
            if k < i {
                assert(scenes[k].id@ != id);
            } else if k > i {
                assert(scenes[i].id@ != id);
            }
        },
        None => {
            assert(scenes[i].id@ == id);
        },
    }
}

/// Entering a scene adds its hit-point change to the hit points, whatever the
/// sign of the change; it fails exactly when no hit points are left; on
/// success the scene's item is held afterwards (added last when it was not
/// held) and nothing else changes.
pub proof fn law_entering_adds_the_hit_point_change(scenario: &Scenario, s: GameStateView, i: int)
    requires
        first_with_id(scenario.scenes@, s.current_scene, i),
    ensures
        entered(scenario, s).0.hp == s.hp + match scenario.scenes@[i].hp_delta {
            Some(d) => d as int,
            None => 0int,
        },
        entered(scenario, s).0.current_scene == s.current_scene,
        entered(scenario, s).1 is Ok <==> entered(scenario, s).0.hp > 0,
        !(entered(scenario, s).1 is Ok) ==> entered(scenario, s).1 == Err::<(), GameErrorView>(
            GameErrorView::GameOver,
        ) && entered(scenario, s).0.inventory == s.inventory,
        entered(scenario, s).1 is Ok ==> entered(scenario, s).0.inventory == match scenario.scenes@[i].found_item {
            Some(item) => if s.inventory.contains(item@) {
                s.inventory
            } else {
                s.inventory.push(item@)
            },
            None => s.inventory,
        },
{
    lemma_first_with_id_found(scenario.scenes@, s.current_scene, i);
}

/// A choice that is taken moves the player to the choice's target and enters
/// it; when that succeeds the result announces the target's ending if it has
/// one (whichever ending it is) and otherwise lets play continue.
pub proof fn law_choice_reaches_its_target(
    scenario: &Scenario,
    s: GameStateView,
    index: int,
    i: int,
    j: int,
)
    requires
        first_with_id(scenario.scenes@, s.current_scene, i),
        1 <= index <= scenario.scenes@[i].choices@.len(),
        scenario.scenes@[i].choices@[index - 1].required_item matches Some(r) ==> s.inventory.contains(r@),
        first_with_id(scenario.scenes@, scenario.scenes@[i].choices@[index - 1].next@, j),
    ensures
        chosen(scenario, s, index).0.current_scene == scenario.scenes@[i].choices@[index - 1].next@,
        chosen(scenario, s, index).0.hp == s.hp + match scenario.scenes@[j].hp_delta {
            Some(d) => d as int,
            None => 0int,
        },
        chosen(scenario, s, index).0.hp > 0 ==> chosen(scenario, s, index).1 == match scenario.scenes@[j].ending {
            Some(e) => Ok::<CommandOutcome, GameErrorView>(CommandOutcome::SceneEnded(e)),
            None => Ok::<CommandOutcome, GameErrorView>(CommandOutcome::Continue),
        },
        chosen(scenario, s, index).0.hp <= 0 ==> chosen(scenario, s, index).1 == Err::<
            CommandOutcome,
            GameErrorView,
        >(GameErrorView::GameOver),
{
    lemma_first_with_id_found(scenario.scenes@, s.current_scene, i);
    let choice = scenario.scenes@[i].choices@[index - 1];
    let moved = GameStateView { current_scene: choice.next@, ..s };
    law_entering_adds_the_hit_point_change(scenario, moved, j);
    lemma_first_with_id_found(scenario.scenes@, choice.next@, j);
}

proof fn lemma_joined_push(items: Seq<Seq<char>>, x: Seq<char>, sep: Seq<char>)
    requires
        items.len() > 0,
    ensures
        joined(items.push(x), sep) == joined(items, sep) + sep + x,
{
    assert(items.push(x).drop_last() =~= items);
}

/// Joining two non-empty lists is joining each and putting the separator
/// between them.
pub proof fn law_join_splits(a: Seq<Seq<char>>, b: Seq<Seq<char>>, sep: Seq<char>)
    requires
        a.len() > 0,
        b.len() > 0,
    ensures
        joined(a + b, sep) == joined(a, sep) + sep + joined(b, sep),
    decreases b.len(),
{
    if b.len() == 1 {
        assert(a + b =~= a.push(b[0]));
        lemma_joined_push(a, b[0], sep);
    } else {
        let c = b.drop_last();
        law_join_splits(a, c, sep);
        assert(a + b =~= (a + c).push(b.last()));
        lemma_joined_push(a + c, b.last(), sep);
        assert(b =~= c.push(b.last()));
        lemma_joined_push(c, b.last(), sep);
    }
}

/// The inventory line: `empty` for nothing held, the single item for one, and
/// each further item adds `, ` and itself before the end of the line.
pub proof fn law_inventory_line(inventory: Seq<Seq<char>>, x: Seq<char>)
    ensures
        inventory_text(Seq::empty()) == "Inventory: empty\n"@,
        inventory_text(seq![x]) == "Inventory: "@ + x + "\n"@,
        inventory.len() > 0 ==> inventory_text(inventory.push(x)) == inventory_text(
            inventory,
        ).drop_last() + ", "@ + x + "\n"@,
{
    reveal_strlit("\n");
    if inventory.len() > 0 {
        lemma_joined_push(inventory, x, ", "@);
        let body = "Inventory: "@ + joined(inventory, ", "@);
        assert((body + "\n"@).drop_last() =~= body);
        assert("Inventory: "@ + joined(inventory.push(x), ", "@) + "\n"@ =~= body + ", "@ + x
            + "\n"@);
    }
}

proof fn lemma_choice_lines_prefix(choices: Seq<Choice>, c: Choice, k: int)
    requires
        0 <= k <= choices.len(),
    ensures
        choice_lines(choices.push(c), k) == choice_lines(choices, k),
    decreases k,
{
    if k > 0 {
        lemma_choice_lines_prefix(choices, c, k - 1);
        assert(choices.push(c)[k - 1] == choices[k - 1]);
    }
}

/// A scene with no choices shows its title and its text, each on a line.
pub proof fn law_scene_without_choices(scene: Scene)
    requires
        scene.choices@.len() == 0,
    ensures
        scene_text(scene) == scene.title@ + "\n"@ + scene.text@ + "\n"@,
{
    assert(scene_text(scene) =~= scene.title@ + "\n"@ + scene.text@ + "\n"@);
}

/// One more choice adds exactly one line at the end of what a scene shows: its
/// number (the count of choices so far plus one), `. `, and its label.
pub proof fn law_each_choice_adds_its_line(s1: Scene, s2: Scene, c: Choice)
    requires
        s2.title@ == s1.title@,
        s2.text@ == s1.text@,
        s2.choices@ == s1.choices@.push(c),
    ensures
        scene_text(s2) == scene_text(s1) + decimal((s1.choices@.len() + 1) as nat) + ". "@ + c.label@
            + "\n"@,
{
    let n = s1.choices@.len() as int;
    lemma_choice_lines_prefix(s1.choices@, c, n);
    assert(s2.choices@[n] == c);
    assert(choice_lines(s2.choices@, n + 1) == choice_lines(s1.choices@, n) + decimal((n + 1) as nat)
        + ". "@ + c.label@ + "\n"@);
    assert(scene_text(s2) =~= scene_text(s1) + decimal((s1.choices@.len() + 1) as nat) + ". "@
        + c.label@ + "\n"@);
}

/// `look` leaves the state alone and shows the current scene (nothing when the
/// scene does not exist); play goes on.
pub proof fn law_look_turn_shows_the_scene(scenario: &Scenario, s: GameStateView)
    ensures
        turn(scenario, s, Ok(Command::Look(LookCommand))).0 == s,
        !turn(scenario, s, Ok(Command::Look(LookCommand))).2,
        forall|i: int|
            first_with_id(scenario.scenes@, s.current_scene, i) ==> turn(
                scenario,
                s,
                Ok(Command::Look(LookCommand)),
            ).1 == scene_text(#[trigger] scenario.scenes@[i]),
        !has_scene(scenario.scenes@, s.current_scene) ==> turn(
            scenario,
            s,
            Ok(Command::Look(LookCommand)),
        ).1 == Seq::<char>::empty(),
{
    lemma_find_scene(scenario.scenes@, s.current_scene);
    assert forall|i: int| first_with_id(scenario.scenes@, s.current_scene, i) implies turn(
        scenario,
        s,
        Ok(Command::Look(LookCommand)),
    ).1 == scene_text(#[trigger] scenario.scenes@[i]) by {
        lemma_first_with_id_found(scenario.scenes@, s.current_scene, i);
    }
}

/// The other commands that only show something: `inventory` shows the
/// inventory line, `status` the hit points and the scene, `help` the commands,
/// and `quit` shows nothing and ends the game; none changes the state.
pub proof fn law_informative_turns(scenario: &Scenario, s: GameStateView)
    ensures
        turn(scenario, s, Ok(Command::Inventory(InventoryCommand))) == (
            s,
            inventory_text(s.inventory),
            false,
        ),
        turn(scenario, s, Ok(Command::Status(StatusCommand))) == (
            s,
            "HP: "@ + signed_decimal(s.hp) + " | Scene: "@ + s.current_scene + "\n"@,
            false,
        ),
        turn(scenario, s, Ok(Command::Help(HelpCommand))) == (
            s,
            "Commands: look, inventory, status, choose <number>, help, quit\n"@,
            false,
        ),
        turn(scenario, s, Ok(Command::Quit(QuitCommand))) == (s, Seq::<char>::empty(), true),
{
}

/// A `choose` turn: after a move that continues, the scene reached is shown;
/// after a move to an ending, the scene is shown and the ending announced;
/// after a game over the scene is shown with `Game Over`; a refused choice is
/// reported as an error and play goes on.
pub proof fn law_choose_turn(scenario: &Scenario, s: GameStateView, c: ChooseCommand, j: int)
    requires
        first_with_id(scenario.scenes@, chosen(scenario, s, c.index as int).0.current_scene, j),
    ensures
        turn(scenario, s, Ok(Command::Choose(c))).0 == chosen(scenario, s, c.index as int).0,
        chosen(scenario, s, c.index as int).1 == Ok::<CommandOutcome, GameErrorView>(
            CommandOutcome::Continue,
        ) ==> turn(scenario, s, Ok(Command::Choose(c))).1 == scene_text(scenario.scenes@[j])
            && !turn(scenario, s, Ok(Command::Choose(c))).2,
        chosen(scenario, s, c.index as int).1 matches Ok(CommandOutcome::SceneEnded(e)) ==> turn(
            scenario,
            s,
            Ok(Command::Choose(c)),
        ).1 == scene_text(scenario.scenes@[j]) + "End: "@ + ending_label(e) + "\n"@ && turn(
            scenario,
            s,
            Ok(Command::Choose(c)),
        ).2,
        chosen(scenario, s, c.index as int).1 == Err::<CommandOutcome, GameErrorView>(
            GameErrorView::GameOver,
        ) ==> turn(scenario, s, Ok(Command::Choose(c))).1 == scene_text(scenario.scenes@[j])
            + "Game Over\n"@ && turn(scenario, s, Ok(Command::Choose(c))).2,
        chosen(scenario, s, c.index as int).1 is Err && chosen(scenario, s, c.index as int).1
            != Err::<CommandOutcome, GameErrorView>(GameErrorView::GameOver) ==> turn(
            scenario,
            s,
            Ok(Command::Choose(c)),
        ).1 == "Error: "@ + game_error_text(chosen(scenario, s, c.index as int).1->Err_0) + "\n"@
            && !turn(scenario, s, Ok(Command::Choose(c))).2,
{
    lemma_first_with_id_found(
        scenario.scenes@,
        chosen(scenario, s, c.index as int).0.current_scene,
        j,
    );
}

/// Choices that cannot be taken are refused without moving: an unknown current
/// scene is reported, 0 or a number past the count is an invalid choice, and a
/// choice whose required item is not held reports that item.
pub proof fn law_refusals(scenario: &Scenario, s: GameStateView, index: int)
    ensures
        !has_scene(scenario.scenes@, s.current_scene) ==> chosen(scenario, s, index) == (
            s,
            Err::<CommandOutcome, GameErrorView>(GameErrorView::UnknownScene(s.current_scene)),
        ),
        forall|i: int|
            first_with_id(scenario.scenes@, s.current_scene, i) ==> {
                &&& (index == 0 || index > (#[trigger] scenario.scenes@[i]).choices@.len())
                    ==> chosen(scenario, s, index) == (
                    s,
                    Err::<CommandOutcome, GameErrorView>(GameErrorView::InvalidChoice),
                )
                &&& (1 <= index <= scenario.scenes@[i].choices@.len()
                    && scenario.scenes@[i].choices@[index - 1].required_item is Some
                    && !s.inventory.contains(scenario.scenes@[i].choices@[index - 1].required_item->0@))
                    ==> chosen(scenario, s, index) == (
                    s,
                    Err::<CommandOutcome, GameErrorView>(
                        GameErrorView::MissingItem(scenario.scenes@[i].choices@[index - 1].required_item->0@),
                    ),
                )
            },
{
    lemma_find_scene(scenario.scenes@, s.current_scene);
    assert forall|i: int| first_with_id(scenario.scenes@, s.current_scene, i) implies {
        &&& (index == 0 || index > (#[trigger] scenario.scenes@[i]).choices@.len())
            ==> chosen(scenario, s, index) == (
            s,
            Err::<CommandOutcome, GameErrorView>(GameErrorView::InvalidChoice),
        )
        &&& (1 <= index <= scenario.scenes@[i].choices@.len()
            && scenario.scenes@[i].choices@[index - 1].required_item is Some
            && !s.inventory.contains(scenario.scenes@[i].choices@[index - 1].required_item->0@))
            ==> chosen(scenario, s, index) == (
            s,
            Err::<CommandOutcome, GameErrorView>(
                GameErrorView::MissingItem(scenario.scenes@[i].choices@[index - 1].required_item->0@),
            ),
        )
    } by {
        lemma_first_with_id_found(scenario.scenes@, s.current_scene, i);
    }
}

/// Validation accepts a story only when no two scenes share an id, the start
/// scene exists and every choice leads to an existing scene; a story with two
/// scenes of one id is refused for a repeated id, one without its start scene
/// (and no repeated id) for the missing start.
pub proof fn law_validation(scenario: &Scenario)
    ensures
        scenario.validation() is Ok ==> {
            let scenes = scenario.scenes@;
            &&& forall|i: int, j: int|
                0 <= i < j < scenes.len() ==> (#[trigger] scenes[i]).id@ != (#[trigger] scenes[j]).id@
            &&& exists|i: int| 0 <= i < scenes.len() && (#[trigger] scenes[i]).id@ == scenario.start_scene@
            &&& forall|i: int, k: int|
                #![trigger scenes[i].choices@[k]] 0 <= i < scenes.len() && 0 <= k < scenes[i].choices@.len() ==> exists|m: int|
                    0 <= m < scenes.len() && (#[trigger] scenes[m]).id@ == scenes[i].choices@[k].next@
        },
        (exists|i: int, j: int|
            0 <= i < j < scenario.scenes@.len() && (#[trigger] scenario.scenes@[i]).id@
                == (#[trigger] scenario.scenes@[j]).id@) ==> scenario.validation() is Err
            && scenario.validation()->Err_0 is DuplicateSceneId,
{
    let scenes = scenario.scenes@;
    if scenario.validation() is Ok {
        assert forall|i: int, k: int|
            #![trigger scenes[i].choices@[k]] 0 <= i < scenes.len() && 0 <= k < scenes[i].choices@.len() implies exists|m: int|
            0 <= m < scenes.len() && (#[trigger] scenes[m]).id@ == scenes[i].choices@[k].next@ by {
            if !has_scene(scenes, scenes[i].choices@[k].next@) {
                assert(dangling_choice(scenes, i, k));
                lemma_dangling_has_first(scenes, i, k);
            }
        }
        assert forall|i: int, j: int|
            0 <= i < j < scenes.len() implies (#[trigger] scenes[i]).id@ != (#[trigger] scenes[j]).id@ by {
            if scenes[i].id@ == scenes[j].id@ {
                assert(crate::scenario::repeats_earlier_id(scenes, j));
                lemma_repeat_has_first(scenes, j);
            }
        }
    }
    if exists|i: int, j: int|
        0 <= i < j < scenes.len() && (#[trigger] scenes[i]).id@ == (#[trigger] scenes[j]).id@ {
        let (i, j) = choose|i: int, j: int|
            0 <= i < j < scenes.len() && (#[trigger] scenes[i]).id@ == (#[trigger] scenes[j]).id@;
        assert(crate::scenario::repeats_earlier_id(scenes, j));
        lemma_repeat_has_first(scenes, j);
    }
}

proof fn lemma_repeat_has_first(scenes: Seq<Scene>, j: int)
    requires
        0 <= j < scenes.len(),
        crate::scenario::repeats_earlier_id(scenes, j),
    ensures
        exists|i: int| crate::scenario::first_repeat(scenes, i),
    decreases j,
{
    if forall|m: int| 0 <= m < j ==> !crate::scenario::repeats_earlier_id(scenes, m) {
        assert(crate::scenario::first_repeat(scenes, j));
    } else {
        let m = choose|m: int| 0 <= m < j && crate::scenario::repeats_earlier_id(scenes, m);
        lemma_repeat_has_first(scenes, m);
    }
}

proof fn lemma_dangling_has_first(scenes: Seq<Scene>, i: int, k: int)
    requires
        dangling_choice(scenes, i, k),
    ensures
        exists|a: int, b: int| crate::scenario::first_dangling(scenes, a, b),
    decreases i, k,
{
    if forall|i2: int, k2: int|
        (0 <= i2 < i || (i2 == i && 0 <= k2 < k)) ==> !dangling_choice(scenes, i2, k2) {
        assert(crate::scenario::first_dangling(scenes, i, k));
    } else {
        let (i2, k2) = choose|i2: int, k2: int|
            (0 <= i2 < i || (i2 == i && 0 <= k2 < k)) && dangling_choice(scenes, i2, k2);
        lemma_dangling_has_first(scenes, i2, k2);
    }
}

/// Each command word names its command and no other word does: `look`,
/// `inventory`, `status`, `help` and `quit` give their commands whatever follows,
/// `choose` with a number gives that choice, and any other word is unknown.
pub proof fn law_command_words(cmd: Seq<char>, arg: Option<Seq<char>>)
    ensures
        command_named(cmd, arg) == Ok::<Command, ParseErrorView>(Command::Look(LookCommand)) <==> cmd
            == "look"@,
        command_named(cmd, arg) == Ok::<Command, ParseErrorView>(Command::Inventory(InventoryCommand))
            <==> cmd == "inventory"@,
        command_named(cmd, arg) == Ok::<Command, ParseErrorView>(Command::Status(StatusCommand))
            <==> cmd == "status"@,
        command_named(cmd, arg) == Ok::<Command, ParseErrorView>(Command::Help(HelpCommand)) <==> cmd
            == "help"@,
        command_named(cmd, arg) == Ok::<Command, ParseErrorView>(Command::Quit(QuitCommand)) <==> cmd
            == "quit"@,
        command_named(cmd, arg) is Ok && command_named(cmd, arg)->Ok_0 is Choose <==> cmd == "choose"@
            && arg is Some && usize_of(arg->0) is Some,
        !(cmd == "look"@ || cmd == "inventory"@ || cmd == "status"@ || cmd == "help"@ || cmd
            == "quit"@ || cmd == "choose"@) ==> command_named(cmd, arg) == Err::<Command, ParseErrorView>(
            ParseErrorView::UnknownCommand(cmd),
        ),
{
    reveal_strlit("choose");
    reveal_strlit("look");
    reveal_strlit("inventory");
    reveal_strlit("status");
    reveal_strlit("help");
    reveal_strlit("quit");
    assert("choose"@.len() != "look"@.len());
    assert("choose"@[0] != "inventory"@[0]);
    assert("choose"@[0] != "status"@[0]);
    assert("choose"@[0] != "help"@[0]);
    assert("choose"@[0] != "quit"@[0]);
    assert("look"@.len() != "inventory"@.len());
    assert("look"@.len() != "status"@.len());
    assert("look"@[0] != "help"@[0]);
    assert("look"@[0] != "quit"@[0]);
    assert("inventory"@.len() != "status"@.len());
    assert("inventory"@.len() != "help"@.len());
    assert("inventory"@.len() != "quit"@.len());
    assert("status"@.len() != "help"@.len());
    assert("status"@.len() != "quit"@.len());
    assert("help"@[0] != "quit"@[0]);
}

} // verus!

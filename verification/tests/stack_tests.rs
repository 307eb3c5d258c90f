use sudoku_rpg::scenes::gameboard::BoardLayout;
use sudoku_rpg::scenes::gameboard::GameboardScene;
use sudoku_rpg::scenes::Scene;
use sudoku_rpg::scenes::SceneStack;
use sudoku_rpg::scenes::SceneSwitch;
use sudoku_rpg::world::World;

/// Scenes distinguishable by a marker in their layout origin.
fn marked_scene(mark: i32) -> GameboardScene {
    let mut world = World::new();
    let mut scene = GameboardScene::new(&mut world);
    scene.layout = BoardLayout { x: mark, y: 0, size: 450 };
    scene
}

fn mark_of(scene: &GameboardScene) -> i32 {
    scene.layout.x
}

#[test]
fn push_makes_the_new_scene_active() {
    let mut stack: SceneStack<World, GameboardScene> = SceneStack::new(World::new());
    stack.push(marked_scene(1));
    assert_eq!(stack.len(), 1);
    assert_eq!(mark_of(stack.current()), 1);

    // Push(B) on [A] yields [A, B] with B active.
    let taken = stack.switch(SceneSwitch::Push(marked_scene(2)));
    assert!(taken.is_none());
    assert_eq!(stack.len(), 2);
    assert_eq!(mark_of(stack.current()), 2);
}

#[test]
fn pop_discards_the_top_and_resumes_the_one_below() {
    let mut stack: SceneStack<World, GameboardScene> = SceneStack::new(World::new());
    stack.push(marked_scene(1));
    stack.push(marked_scene(2));

    // Pop on [A, B] yields [A] with A active and B handed back for discard.
    let taken = stack.switch(SceneSwitch::Pop);
    assert_eq!(taken.map(|s| mark_of(&s)), Some(2));
    assert_eq!(stack.len(), 1);
    assert_eq!(mark_of(stack.current()), 1);
}

#[test]
fn replace_swaps_the_top_in_one_transition() {
    let mut stack: SceneStack<World, GameboardScene> = SceneStack::new(World::new());
    stack.push(marked_scene(1));
    stack.push(marked_scene(2));

    // Replace(C) on [A, B] yields [A, C]: one transition, B handed back,
    // and at no observable point was A the active scene.
    let taken = stack.switch(SceneSwitch::Replace(marked_scene(3)));
    assert_eq!(taken.map(|s| mark_of(&s)), Some(2));
    assert_eq!(stack.len(), 2);
    assert_eq!(mark_of(stack.current()), 3);
}

#[test]
fn stay_changes_nothing() {
    let mut stack: SceneStack<World, GameboardScene> = SceneStack::new(World::new());
    stack.push(marked_scene(1));
    let taken = stack.switch(SceneSwitch::Stay);
    assert!(taken.is_none());
    assert_eq!(stack.len(), 1);
    assert_eq!(mark_of(stack.current()), 1);
}

#[test]
fn unsolved_scene_stays_solved_scene_pops() {
    let mut stack: SceneStack<World, GameboardScene> = SceneStack::new(World::new());
    stack.push(marked_scene(1));

    // An unsolved board keeps its scene on the stack.
    stack.update();
    assert_eq!(stack.len(), 1);

    // Mark the board solved through the one legal route: a completed grid.
    for row in 0..9 {
        for col in 0..9 {
            let v = ((3 * row + row / 3 + col) % 9 + 1) as u8;
            stack.scenes[0].gameboard.set((col, row), v);
        }
    }
    assert!(stack.scenes[0].gameboard.solved);

    // The next update asks for Pop and the stack applies it.
    stack.update();
    assert_eq!(stack.len(), 0);
}

#[test]
fn scene_reports_its_name() {
    let mut world = World::new();
    let scene = GameboardScene::new(&mut world);
    assert_eq!(scene.name(), "Game Board");
}

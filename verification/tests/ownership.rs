use rust_tour::ownership::{ownership, ownership_move};

#[test]
fn a_moved_vector_is_taken_whole() {
    let vector = vec![1, 2, 3];
    ownership_move(vector);
    ownership_move(Vec::new());
}

#[test]
fn ownership_stop_runs_to_its_end() {
    ownership();
}

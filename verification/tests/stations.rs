use lofi_radio::station::{next_index, prev_index, stations, step_index, Direction, Station};

#[test]
fn station_table_is_the_built_in_one() {
    let table = stations();
    assert_eq!(
        table,
        vec![
            Station { name: "Lofi 1", url: "https://stream.zeno.fm/0r0xa792kwzuv" },
            Station { name: "Lofi 2", url: "https://stream.zeno.fm/v5reddyk8rhvv" },
        ]
    );
}

#[test]
fn prev_from_first_lands_on_last() {
    assert_eq!(prev_index(0, 2), 1);
    assert_eq!(prev_index(0, 7), 6);
    assert_eq!(prev_index(0, 1), 0);
    assert_eq!(step_index(0, 7, Direction::Prev), 6);
}

#[test]
fn next_from_last_lands_on_first() {
    assert_eq!(next_index(1, 2), 0);
    assert_eq!(next_index(6, 7), 0);
    assert_eq!(next_index(0, 1), 0);
    assert_eq!(step_index(6, 7, Direction::Next), 0);
}

#[test]
fn moves_inside_the_table_go_to_the_neighbour() {
    assert_eq!(next_index(2, 7), 3);
    assert_eq!(prev_index(2, 7), 1);
    assert_eq!(step_index(2, 7, Direction::Next), 3);
    assert_eq!(step_index(2, 7, Direction::Prev), 1);
}

#[test]
fn next_visits_every_station_once_per_round() {
    for count in 1..9usize {
        for start in 0..count {
            let mut seen = vec![false; count];
            let mut index = start;
            for _ in 0..count {
                assert!(!seen[index]);
                seen[index] = true;
                index = next_index(index, count);
            }
            assert!(seen.iter().all(|s| *s));
            assert_eq!(index, start);
        }
    }
}

#[test]
fn prev_undoes_next() {
    for count in 1..9usize {
        for index in 0..count {
            assert_eq!(prev_index(next_index(index, count), count), index);
            assert_eq!(next_index(prev_index(index, count), count), index);
        }
    }
}

#[test]
fn next_index_at_the_top_of_the_range() {
    assert_eq!(next_index(usize::MAX - 1, usize::MAX), 0);
    assert_eq!(next_index(usize::MAX - 2, usize::MAX), usize::MAX - 1);
}

use bounded_rect::border::border_cells;
use bounded_rect::border::Cell;

#[test]
fn border_of_three_by_two_is_exact() {
    let cells = border_cells(3, 2);
    assert_eq!(
        cells,
        vec![
            Cell { x: 0, y: 0 },
            Cell { x: 0, y: 1 },
            Cell { x: 1, y: 0 },
            Cell { x: 1, y: 1 },
            Cell { x: 2, y: 0 },
            Cell { x: 2, y: 1 },
            Cell { x: 0, y: 0 },
            Cell { x: 2, y: 0 },
            Cell { x: 0, y: 1 },
            Cell { x: 2, y: 1 },
        ]
    );
}

#[test]
fn border_visits_every_perimeter_cell_and_no_other() {
    let width: u16 = 7;
    let height: u16 = 5;
    let cells = border_cells(width, height);
    assert_eq!(cells.len(), 2 * (width as usize) + 2 * (height as usize));
    for c in &cells {
        assert!(c.x == 0 || c.x == width - 1 || c.y == 0 || c.y == height - 1);
    }
    for x in 0..width {
        for y in 0..height {
            let on_perimeter = x == 0 || x == width - 1 || y == 0 || y == height - 1;
            let visited = cells.iter().any(|c| c.x == x && c.y == y);
            assert_eq!(visited, on_perimeter);
        }
    }
}

#[test]
fn border_of_one_by_one_paints_the_single_cell() {
    let cells = border_cells(1, 1);
    assert_eq!(cells.len(), 4);
    for c in &cells {
        assert_eq!(*c, Cell { x: 0, y: 0 });
    }
}

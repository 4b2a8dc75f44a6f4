use diffurch::symbol::Coord;

#[test]
fn coord_vec_numbers_the_coordinates() {
    let v = Coord::vec::<3>();
    assert_eq!(format!("{:?}", v), "[Coord(0), Coord(1), Coord(2)]");
    assert_eq!(format!("{:?}", v[2].dt()), "CoordDerivative(2)");
    let none = Coord::vec::<0>();
    assert_eq!(none.len(), 0);
}

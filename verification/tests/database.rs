use portalfigure::common::FigureData;
use portalfigure::sqlite;
use rusqlite::Connection;

fn figure(figure_id: u16, variant_id: u16, name: &str) -> FigureData {
    FigureData {
        figure_id,
        variant_id,
        name: name.to_string(),
        name_id: String::new(),
        file_path: String::new(),
    }
}

fn build(conn: &Connection, figs: &Vec<FigureData>) -> Result<(), rusqlite::Error> {
    let plan = sqlite::emit(figs, "1.0.0");
    conn.execute(&plan.create_table, [])?;
    for row in plan.rows.iter() {
        conn.execute(&plan.insert_row, [&row.figure_id, &row.variant_id, &row.name])?;
    }
    Ok(())
}

#[test]
fn database_holds_the_rows_in_order() {
    let figs = vec![figure(0x1ce, 0x3000, "Spyro"), figure(0x1ce, 0x3002, "Dark Spyro")];
    let conn = Connection::open_in_memory().unwrap();
    build(&conn, &figs).unwrap();
    let mut stmt = conn
        .prepare("SELECT figure_id, variant_id, name FROM PortalFigure ORDER BY rowid")
        .unwrap();
    let mut rows = stmt.query([]).unwrap();
    let mut seen: Vec<(i64, i64, String)> = Vec::new();
    while let Some(row) = rows.next().unwrap() {
        seen.push((row.get(0).unwrap(), row.get(1).unwrap(), row.get(2).unwrap()));
    }
    assert_eq!(
        seen,
        vec![(0x1ce, 0x3000, "Spyro".to_string()), (0x1ce, 0x3002, "Dark Spyro".to_string())]
    );
}

#[test]
fn database_refuses_a_repeated_key() {
    let figs = vec![figure(1, 2, "A"), figure(1, 2, "B")];
    let conn = Connection::open_in_memory().unwrap();
    assert!(build(&conn, &figs).is_err());
}

#[test]
fn database_refuses_a_repeated_name() {
    let figs = vec![figure(1, 2, "A"), figure(1, 3, "A")];
    let conn = Connection::open_in_memory().unwrap();
    assert!(build(&conn, &figs).is_err());
}

use sheet_migrate::cell::{cell_to_string, infer, render_literal, CellValue, SchemaType};
use sheet_migrate::inserts::render_inserts;
use sheet_migrate::migration::{
    class_name, generate_migration, generate_migration_now, get_table_name, migration_file_name,
    ExcelToMigrationArgs, MigrationOptions,
};
use sheet_migrate::schema::{
    column_specs, extract_column_names, normalize_header, render_schema, Marker, MigrationError,
};
use sheet_migrate::text::{decimal_i64, decimal_u64, pad_zeros, replace_sole_marker};

const TEMPLATE: &str = "<?php\nclass TemplateMigration\n{\n    up {\n        // up()\n    }\n    down {\n        // down()\n    }\n}\n";

fn text(s: &str) -> CellValue {
    CellValue::Text(s.to_string())
}

fn opts(with_pk: bool, with_timestamps: bool, chunk_size: usize) -> MigrationOptions {
    MigrationOptions { with_pk, with_timestamps, chunk_size }
}

fn names(v: &[&str]) -> Vec<String> {
    v.iter().map(|s| s.to_string()).collect()
}

fn int_rows(n: usize) -> Vec<Vec<CellValue>> {
    (0..n).map(|i| vec![CellValue::Integer(i as i64)]).collect()
}

fn batch_sizes(block: &str) -> Vec<usize> {
    block
        .split("->insert($data);")
        .filter(|piece| piece.contains("$data = ["))
        .map(|piece| piece.matches("            [\n").count())
        .collect()
}

#[test]
fn infer_is_deterministic_and_total() {
    let samples = vec![
        CellValue::Integer(7),
        CellValue::Decimal("1.5".to_string()),
        text("x"),
        CellValue::Boolean(true),
        CellValue::Timestamp("2024-01-01 00:00:00".to_string()),
        CellValue::Duration("PT1H".to_string()),
        CellValue::Error("Div0".to_string()),
        CellValue::Empty,
    ];
    let expected = vec![
        SchemaType::Integer,
        SchemaType::Decimal,
        SchemaType::Text,
        SchemaType::Boolean,
        SchemaType::DateTime,
        SchemaType::Text,
        SchemaType::Text,
        SchemaType::Text,
    ];
    for (c, t) in samples.iter().zip(expected.iter()) {
        assert_eq!(infer(c), *t);
        assert_eq!(infer(c), infer(&c.clone()));
    }
}

#[test]
fn insert_statement_count_is_ceiling() {
    for (r, k, n) in [(0usize, 3usize, 0usize), (1, 1, 1), (5, 2, 3), (6, 2, 3), (7, 7, 1), (8, 7, 2), (10, 1, 10)] {
        let rows = int_rows(r);
        let out = render_inserts("t", &names(&["n"]), &rows, k).unwrap();
        let sizes = batch_sizes(&out);
        assert_eq!(sizes.len(), n, "rows {} chunk {}", r, k);
        assert_eq!(out.matches("DB::table('t')->insert($data);").count(), n);
        assert_eq!(sizes.iter().sum::<usize>(), r);
    }
    assert_eq!(render_inserts("t", &names(&["n"]), &Vec::new(), 5).unwrap(), "");
}

#[test]
fn header_names_normalize_in_order() {
    let header = vec![text("First Name"), text("Age")];
    assert_eq!(extract_column_names(&header), names(&["first_name", "age"]));
    let reversed = vec![text("Age"), text("First Name")];
    assert_eq!(extract_column_names(&reversed), names(&["age", "first_name"]));
    let sample = vec![text("Ann"), CellValue::Integer(30)];
    let cs = column_specs(&header, &sample).unwrap();
    assert_eq!(
        render_schema(&cs),
        "            $table->string('first_name');\n            $table->integer('age');\n"
    );
}

#[test]
fn literals_escape_quotes_and_empty_is_null() {
    assert_eq!(render_literal(&text("O'Brien")), "'O\\'Brien'");
    assert_eq!(render_literal(&CellValue::Empty), "null");
    assert_eq!(render_literal(&CellValue::Integer(-42)), "-42");
    assert_eq!(render_literal(&CellValue::Decimal("2.5".to_string())), "2.5");
    assert_eq!(render_literal(&CellValue::Boolean(false)), "false");
    assert_eq!(render_literal(&CellValue::Boolean(true)), "true");
    assert_eq!(
        render_literal(&CellValue::Timestamp("2024-03-01 10:00:00".to_string())),
        "'2024-03-01 10:00:00'"
    );
    assert_eq!(render_literal(&CellValue::Error("Div0".to_string())), "'Error: Div0'");
    assert_eq!(render_literal(&CellValue::Duration("PT2H".to_string())), "'PT2H'");
    assert_eq!(render_literal(&text(" a ")), "' a '");
}

#[test]
fn display_text_of_cells() {
    assert_eq!(cell_to_string(&text("  padded  ")), "padded");
    assert_eq!(cell_to_string(&CellValue::Integer(i64::MIN)), "-9223372036854775808");
    assert_eq!(cell_to_string(&CellValue::Boolean(true)), "true");
    assert_eq!(cell_to_string(&CellValue::Empty), "");
    assert_eq!(cell_to_string(&CellValue::Error("NA".to_string())), "Error: NA");
}

#[test]
fn generation_is_repeatable() {
    let header = vec![text("id"), text("name")];
    let rows = vec![vec![CellValue::Integer(1), text("Alice")]];
    let a = generate_migration("users", &header, &rows, TEMPLATE, "2024_01_02_030405", opts(true, true, 10)).unwrap();
    let b = generate_migration("users", &header, &rows, TEMPLATE, "2024_01_02_030405", opts(true, true, 10)).unwrap();
    assert_eq!(a.content, b.content);
    assert_eq!(a.file_name, b.file_name);
    assert_eq!(a.class_name, b.class_name);
}

#[test]
fn single_row_sheet_scenario() {
    let header = vec![text("id"), text("name")];
    let rows = vec![vec![CellValue::Integer(1), text("Alice")]];
    let m = generate_migration("users", &header, &rows, TEMPLATE, "2024_01_02_030405", opts(false, false, 100)).unwrap();
    assert_eq!(m.file_name, "2024_01_02_030405_users_table.php");
    assert_eq!(m.class_name, "UsersTable");
    let up = "Schema::create('users', function (Blueprint $table) {\n            $table->integer('id');\n            $table->string('name');\n});\n\n        // Insert data\n        $data = [\n            [\n                'id' => 1,\n                'name' => 'Alice',\n            ],\n        ];\n\n        DB::table('users')->insert($data);\n";
    let expected = TEMPLATE
        .replace("TemplateMigration", "UsersTable")
        .replace("// up()", up)
        .replace("// down()", "Schema::dropIfExists('users');");
    assert_eq!(m.content, expected);
    assert_eq!(m.content.matches("->insert($data);").count(), 1);
}

#[test]
fn key_and_timestamp_columns() {
    let header = vec![text("n")];
    let rows = vec![vec![CellValue::Empty]];
    let m = generate_migration("t", &header, &rows, TEMPLATE, "x", opts(true, true, 100)).unwrap();
    assert!(m.content.contains(
        "            $table->string('n')->nullable();\n            $table->id();\n            $table->timestamps();\n});"
    ));
    assert!(m.content.contains("'n' => null,"));
}

#[test]
fn chunked_scenario_250_rows() {
    let header = vec![text("n")];
    let rows = int_rows(250);
    let m = generate_migration("t", &header, &rows, TEMPLATE, "x", opts(false, false, 100)).unwrap();
    assert_eq!(batch_sizes(&m.content), vec![100, 100, 50]);
}

#[test]
fn arity_mismatch_scenario() {
    let header = vec![text("a"), text("b")];
    let rows = vec![vec![CellValue::Integer(1), CellValue::Integer(2), CellValue::Integer(3)]];
    let r = generate_migration("t", &header, &rows, TEMPLATE, "x", opts(false, false, 100));
    assert_eq!(r.unwrap_err(), MigrationError::ArityMismatch { row: 1, expected: 2, found: 3 });
}

#[test]
fn later_row_arity_mismatch() {
    let header = vec![text("a")];
    let rows = vec![vec![CellValue::Integer(1)], vec![CellValue::Integer(2)], vec![]];
    let r = generate_migration("t", &header, &rows, TEMPLATE, "x", opts(false, false, 100));
    assert_eq!(r.unwrap_err(), MigrationError::ArityMismatch { row: 3, expected: 1, found: 0 });
}

#[test]
fn other_generation_errors() {
    let header = vec![text("a")];
    let one = vec![vec![CellValue::Integer(1)]];
    assert_eq!(
        generate_migration("t", &header, &Vec::new(), TEMPLATE, "x", opts(false, false, 1)).unwrap_err(),
        MigrationError::TooFewRows
    );
    assert_eq!(
        generate_migration("t", &header, &one, TEMPLATE, "x", opts(false, false, 0)).unwrap_err(),
        MigrationError::InvalidChunkSize
    );
    let dup = vec![text("Name"), text("name ")];
    let two = vec![vec![CellValue::Integer(1), CellValue::Integer(2)]];
    assert_eq!(
        generate_migration("t", &dup, &two, TEMPLATE, "x", opts(false, false, 1)).unwrap_err(),
        MigrationError::DuplicateColumn { index: 1 }
    );
    assert_eq!(
        generate_migration("t", &header, &one, "no markers", "x", opts(false, false, 1)).unwrap_err(),
        MigrationError::TemplateMarker { marker: Marker::ClassName }
    );
    assert_eq!(
        generate_migration("t", &header, &one, "TemplateMigration // up() // up() // down()", "x", opts(false, false, 1)).unwrap_err(),
        MigrationError::TemplateMarker { marker: Marker::Up }
    );
    assert_eq!(
        generate_migration("t", &header, &one, "TemplateMigration // up()", "x", opts(false, false, 1)).unwrap_err(),
        MigrationError::TemplateMarker { marker: Marker::Down }
    );
}

#[test]
fn marker_substitution() {
    assert_eq!(replace_sole_marker("a[m]b", "[m]", "XY"), Some("aXYb".to_string()));
    assert_eq!(replace_sole_marker("[m][m]", "[m]", "X"), None);
    assert_eq!(replace_sole_marker("ab", "[m]", "X"), None);
    assert_eq!(replace_sole_marker("é[m]ü", "[m]", "ß"), Some("éßü".to_string()));
}

#[test]
fn names_and_identifiers() {
    assert_eq!(normalize_header(&text("  First Name ")), "first_name");
    assert_eq!(class_name("user_accounts"), "UserAccountsTable");
    assert_eq!(migration_file_name("2024_05_06_070809", "orders"), "2024_05_06_070809_orders_table.php");
    let mut args = ExcelToMigrationArgs {
        input: "My Data.xlsx".to_string(),
        output_dir: "./migrations".to_string(),
        table: Some("Explicit".to_string()),
        with_pk: true,
        with_timestamps: false,
        chunk_size: 7,
    };
    assert_eq!(get_table_name(&args, Some("My Data".to_string())), "Explicit");
    args.table = None;
    assert_eq!(get_table_name(&args, Some("My Data".to_string())), "my_data");
    assert_eq!(get_table_name(&args, None), "default_table");
    assert_eq!(args.options(), opts(true, false, 7));
}

#[test]
fn stamped_file_name_has_sortable_prefix() {
    let header = vec![text("a")];
    let rows = vec![vec![CellValue::Integer(1)]];
    let m = generate_migration_now("t", &header, &rows, TEMPLATE, opts(false, false, 5)).unwrap();
    assert!(m.file_name.ends_with("_t_table.php"));
    let stamp = &m.file_name[..17];
    assert!(stamp.chars().all(|c| c.is_ascii_digit() || c == '_'));
    assert_eq!(&stamp[4..5], "_");
}

#[test]
fn decimal_and_padding() {
    assert_eq!(decimal_u64(0), "0");
    assert_eq!(decimal_u64(u64::MAX), "18446744073709551615");
    assert_eq!(decimal_i64(-7), "-7");
    assert_eq!(pad_zeros("7", 3), "007");
    assert_eq!(pad_zeros("12345", 3), "12345");
}

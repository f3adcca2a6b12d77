//! The migration document: schema block, optional key and timestamp
//! columns, and insert block substituted into a template's markers.
use vstd::prelude::*;
use crate::cell::CellValue;
use crate::schema::{MigrationError, Marker, specs_error, header_names, sheet_schema_text,
    column_specs, extract_column_names, render_schema, lemma_schema_of_sheet};
use crate::inserts::{inserts_outcome, render_inserts, rows_view};
use crate::text::{snake_of, upper_camel_of, replace_sole, replace_sole_marker, snake_case,
    upper_camel_case, local_timestamp};

verus! {

/// Choices of one generation run.
#[derive(Clone, Copy, Debug, PartialEq, Eq, Structural)]
pub struct MigrationOptions {
    /// Add an auto-incrementing `id` column.
    pub with_pk: bool,
    /// Add `created_at` and `updated_at` columns.
    pub with_timestamps: bool,
    /// Rows per insert statement.
    pub chunk_size: usize,
}

/// A generated migration document and its names.
#[derive(Debug)]
pub struct Migration {
    pub file_name: String,
    pub class_name: String,
    pub content: String,
}

pub open spec fn table_name_spec(table: Option<Seq<char>>, stem: Option<Seq<char>>) -> Seq<char> {
    match table {
        Some(t) => t,
        None => snake_of(
            match stem {
                Some(s) => s,
                None => "default_table"@,
            },
        ),
    }
}

/// Arguments of a generation run. Paths are held as text.
#[derive(Clone, Debug)]
pub struct ExcelToMigrationArgs {
    /// Path of the input workbook.
    pub input: String,
    /// Directory that receives the migration file.
    pub output_dir: String,
    /// Explicit table name.
    pub table: Option<String>,
    /// Add an auto-incrementing `id` column.
    pub with_pk: bool,
    /// Add `created_at` and `updated_at` columns.
    pub with_timestamps: bool,
    /// Rows per insert statement.
    pub chunk_size: usize,
}

impl ExcelToMigrationArgs {
    /// The generation choices these arguments make.
    pub fn options(&self) -> (r: MigrationOptions)
        ensures
            r == (MigrationOptions {
                with_pk: self.with_pk,
                with_timestamps: self.with_timestamps,
                chunk_size: self.chunk_size,
            }),
    {
        MigrationOptions {
            with_pk: self.with_pk,
            with_timestamps: self.with_timestamps,
            chunk_size: self.chunk_size,
        }
    }
}

/// Target table name: the explicit one, else the input file's stem in snake
/// case (`stem` is `None` when the stem is not valid text).
pub fn get_table_name(args: &ExcelToMigrationArgs, stem: Option<String>) -> (r: String)
    ensures
        r@ == table_name_spec(
            match args.table {
                Some(t) => Some(t@),
                None => None,
            },
            match stem {
                Some(s) => Some(s@),
                None => None,
            },
        ),
{
    match &args.table {
        Some(t) => t.clone(),
        None => match stem {
            Some(s) => snake_case(s.as_str()),
            None => snake_case("default_table"),
        },
    }
}

pub open spec fn class_name_spec(table: Seq<char>) -> Seq<char> {
    upper_camel_of(table) + "Table"@
}

/// Class name of the migration: the table name in upper camel case plus `Table`.
pub fn class_name(table: &str) -> (r: String)
    ensures
        r@ == class_name_spec(table@),
{
    let mut r = upper_camel_case(table);
    r.append("Table");
    r
}

pub open spec fn file_name_spec(timestamp: Seq<char>, table: Seq<char>) -> Seq<char> {
    timestamp + "_"@ + table + "_table.php"@
}

/// File name `<timestamp>_<table>_table.php`; with a `YYYY_MM_DD_HHMMSS`
/// timestamp names sort by time.
pub fn migration_file_name(timestamp: &str, table: &str) -> (r: String)
    ensures
        r@ == file_name_spec(timestamp@, table@),
{
    let mut r = String::from_str(timestamp);
    r.append("_");
    r.append(table);
    r.append("_table.php");
    r
}

pub open spec fn up_text(table: Seq<char>, schema: Seq<char>, with_pk: bool, with_timestamps: bool, inserts: Seq<char>) -> Seq<char> {
    "Schema::create('"@ + table + "', function (Blueprint $table) {\n"@ + schema + (if with_pk {
        "            $table->id();\n"@
    } else {
        Seq::empty()
    }) + (if with_timestamps {
        "            $table->timestamps();\n"@
    } else {
        Seq::empty()
    }) + "});\n\n"@ + inserts
}

pub open spec fn down_text(table: Seq<char>) -> Seq<char> {
    "Schema::dropIfExists('"@ + table + "');"@
}

/// The template with its class-name, drop and create markers substituted,
/// in that order; each must occur exactly once when it is substituted.
pub open spec fn filled_template(template: Seq<char>, class: Seq<char>, up: Seq<char>, down: Seq<char>) -> Result<Seq<char>, MigrationError> {
    match replace_sole(template, "TemplateMigration"@, class) {
        None => Err(MigrationError::TemplateMarker { marker: Marker::ClassName }),
        Some(t1) => match replace_sole(t1, "// down()"@, down) {
            None => Err(MigrationError::TemplateMarker { marker: Marker::Down }),
            Some(t2) => match replace_sole(t2, "// up()"@, up) {
                None => Err(MigrationError::TemplateMarker { marker: Marker::Up }),
                Some(t3) => Ok(t3),
            },
        },
    }
}

/// Substitutes the three markers of a template.
pub fn fill_template(template: &str, class: &str, up: &str, down: &str) -> (r: Result<String, MigrationError>)
    ensures
        match r {
            Ok(s) => filled_template(template@, class@, up@, down@) == Ok::<Seq<char>, MigrationError>(s@),
            Err(e) => filled_template(template@, class@, up@, down@) == Err::<Seq<char>, MigrationError>(e),
        },
{
    proof {
        reveal_strlit("TemplateMigration");
        reveal_strlit("// down()");
        reveal_strlit("// up()");
    }
    let t1 = match replace_sole_marker(template, "TemplateMigration", class) {
        Some(t) => t,
        None => {
            return Err(MigrationError::TemplateMarker { marker: Marker::ClassName });
        },
    };
    let t2 = match replace_sole_marker(t1.as_str(), "// down()", down) {
        Some(t) => t,
        None => {
            return Err(MigrationError::TemplateMarker { marker: Marker::Down });
        },
    };
    match replace_sole_marker(t2.as_str(), "// up()", up) {
        Some(t) => Ok(t),
        None => Err(MigrationError::TemplateMarker { marker: Marker::Up }),
    }
}

/// What generating a migration gives for a header row, the data rows below
/// it, a template and a timestamp: file name, class name and content, or
/// the first error met.
pub open spec fn migration_outcome(
    table: Seq<char>,
    header: Seq<CellValue>,
    rows: Seq<Seq<CellValue>>,
    template: Seq<char>,
    timestamp: Seq<char>,
    options: MigrationOptions,
) -> Result<(Seq<char>, Seq<char>, Seq<char>), MigrationError> {
    if rows.len() == 0 {
        Err(MigrationError::TooFewRows)
    } else if specs_error(header, rows[0]) is Some {
        Err(specs_error(header, rows[0])->0)
    } else {
        match inserts_outcome(table, header_names(header), rows, options.chunk_size as nat) {
            Err(e) => Err(e),
            Ok(ins) => {
                let up = up_text(
                    table,
                    sheet_schema_text(header, rows[0], header.len()),
                    options.with_pk,
                    options.with_timestamps,
                    ins,
                );
                match filled_template(template, class_name_spec(table), up, down_text(table)) {
                    Err(e) => Err(e),
                    Ok(c) => Ok((file_name_spec(timestamp, table), class_name_spec(table), c)),
                }
            },
        }
    }
}

pub open spec fn migration_view(m: Migration) -> (Seq<char>, Seq<char>, Seq<char>) {
    (m.file_name@, m.class_name@, m.content@)
}

/// `r` is what generation gives for these inputs.
pub open spec fn generated_as(
    r: Result<Migration, MigrationError>,
    table: Seq<char>,
    header: Seq<CellValue>,
    rows: Seq<Seq<CellValue>>,
    template: Seq<char>,
    timestamp: Seq<char>,
    options: MigrationOptions,
) -> bool {
    match r {
        Ok(m) => migration_outcome(table, header, rows, template, timestamp, options) == Ok::<
            (Seq<char>, Seq<char>, Seq<char>),
            MigrationError,
        >(migration_view(m)),
        Err(e) => migration_outcome(table, header, rows, template, timestamp, options) == Err::<
            (Seq<char>, Seq<char>, Seq<char>),
            MigrationError,
        >(e),
    }
}

/// Generates the migration for a sheet given as its header row and the data
/// rows below it. Column types and nullability come from the first data row.
pub fn generate_migration(
    table: &str,
    header: &Vec<CellValue>,
    rows: &Vec<Vec<CellValue>>,
    template: &str,
    timestamp: &str,
    options: MigrationOptions,
) -> (r: Result<Migration, MigrationError>)
    ensures
        generated_as(r, table@, header@, rows_view(rows@), template@, timestamp@, options),
{
    if rows.len() == 0 {
        return Err(MigrationError::TooFewRows);
    }
    let sample: &Vec<CellValue> = &rows[0];
    assert(sample@ == rows_view(rows@)[0]);
    let columns = match column_specs(header, sample) {
        Ok(cs) => cs,
        Err(e) => {
            return Err(e);
        },
    };
    let names = extract_column_names(header);
    proof {
        lemma_schema_of_sheet(columns@, header@, rows@[0]@);
        assert(crate::schema::name_views(names@) =~= header_names(header@));
    }
    let inserts = match render_inserts(table, &names, rows, options.chunk_size) {
        Ok(s) => s,
        Err(e) => {
            return Err(e);
        },
    };
    let schema = render_schema(&columns);
    let mut up = String::from_str("Schema::create('");
    up.append(table);
    up.append("', function (Blueprint $table) {\n");
    up.append(schema.as_str());
    if options.with_pk {
        up.append("            $table->id();\n");
    }
    if options.with_timestamps {
        up.append("            $table->timestamps();\n");
    }
    up.append("});\n\n");
    up.append(inserts.as_str());
    let mut down = String::from_str("Schema::dropIfExists('");
    down.append(table);
    down.append("');");
    let class = class_name(table);
    assert(up@ =~= up_text(
        table@,
        sheet_schema_text(header@, rows@[0]@, header@.len()),
        options.with_pk,
        options.with_timestamps,
        inserts@,
    ));
    assert(down@ =~= down_text(table@));
    let content = match fill_template(template, class.as_str(), up.as_str(), down.as_str()) {
        Ok(c) => c,
        Err(e) => {
            return Err(e);
        },
    };
    let file_name = migration_file_name(timestamp, table);
    Ok(Migration { file_name, class_name: class, content })
}

/// Generates the migration stamped with the local time now. Whatever the
/// clock reads, the result is what `generate_migration` gives for some
/// timestamp.
pub fn generate_migration_now(
    table: &str,
    header: &Vec<CellValue>,
    rows: &Vec<Vec<CellValue>>,
    template: &str,
    options: MigrationOptions,
) -> (r: Result<Migration, MigrationError>)
    ensures
        exists|ts: Seq<char>| #[trigger] generated_as(r, table@, header@, rows_view(rows@), template@, ts, options),
{
    let ts = local_timestamp();
    let r = generate_migration(table, header, rows, template, ts.as_str(), options);
    assert(generated_as(r, table@, header@, rows_view(rows@), template@, ts@, options));
    r
}

/// Generation is a function of its inputs: two runs on equal inputs, with the
/// same timestamp, give identical documents or identical errors.
pub proof fn lemma_generation_repeatable(
    table: Seq<char>,
    header: Seq<CellValue>,
    rows: Seq<Seq<CellValue>>,
    template: Seq<char>,
    timestamp: Seq<char>,
    options: MigrationOptions,
    table2: Seq<char>,
    header2: Seq<CellValue>,
    rows2: Seq<Seq<CellValue>>,
    template2: Seq<char>,
    timestamp2: Seq<char>,
    options2: MigrationOptions,
)
    requires
        table == table2,
        header == header2,
        rows == rows2,
        template == template2,
        timestamp == timestamp2,
        options == options2,
    ensures
        migration_outcome(table, header, rows, template, timestamp, options) == migration_outcome(
            table2,
            header2,
            rows2,
            template2,
            timestamp2,
            options2,
        ),
{
}

} // verus!

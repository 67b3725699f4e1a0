use db_clone::schema_export::{filter_schema_content, SchemaExportOptions};
use db_clone::schema_filter::{filter_text, removal_of, Inclusions, Removal};

fn all() -> Inclusions {
    Inclusions::all()
}

fn chars(s: &str) -> Vec<char> {
    s.chars().collect()
}

const DUMP: &str = "--\n-- PostgreSQL database dump\n--\n\nCREATE TYPE mood AS ENUM (\n    'sad',\n    'ok'\n);\n\nCREATE SEQUENCE users_id_seq\n    START WITH 1\n    NO MAXVALUE;\n\nCREATE TABLE users (\n    id integer NOT NULL,\n    name text\n);\n\nALTER SEQUENCE users_id_seq OWNED BY users.id;\n\nCOMMENT ON TABLE users IS 'people';\n\nCREATE FUNCTION touch() RETURNS trigger\n    LANGUAGE plpgsql\n    AS $$\nBEGIN\n    NEW.seen := now();\n    RETURN NEW;\nEND;\n$$;\n\nCREATE VIEW names AS\n SELECT name\n   FROM users;\n\nSELECT pg_catalog.setval('users_id_seq', 7, true);\n\nALTER TABLE ONLY users\n    ADD CONSTRAINT users_pkey PRIMARY KEY (id);\n\nCREATE INDEX users_name ON users USING btree (name);\n\nCREATE UNIQUE INDEX users_id ON users USING btree (id);\n\nCREATE TRIGGER touch_users BEFORE UPDATE ON users FOR EACH ROW EXECUTE FUNCTION touch();\n\nALTER TABLE ONLY orders ADD CONSTRAINT o_fk FOREIGN KEY (u) REFERENCES users(id);\n";

#[test]
fn nothing_is_removed_when_everything_is_included() {
    let r = filter_text(DUMP, &all());
    assert_eq!(r.content, DUMP);
    assert_eq!(r.excluded, 0);
}

#[test]
fn line_ends_become_line_feeds_when_everything_is_included() {
    let r = filter_text("a\r\nb", &all());
    assert_eq!(r.content, "a\nb\n");
    assert_eq!(r.excluded, 0);
    let r = filter_text("", &all());
    assert_eq!(r.content, "");
    let r = filter_text("no line end", &all());
    assert_eq!(r.content, "no line end\n");
}

#[test]
fn comments_are_removed() {
    let inc = Inclusions { comments: false, ..all() };
    let r = filter_text(DUMP, &inc);
    assert_eq!(r.excluded, 1);
    assert_eq!(r.content, DUMP.replace("COMMENT ON TABLE users IS 'people';\n", ""));
}

#[test]
fn a_statement_over_several_lines_is_removed_up_to_its_semicolon() {
    let inc = Inclusions { types: false, ..all() };
    let r = filter_text(DUMP, &inc);
    assert_eq!(r.excluded, 1);
    assert_eq!(
        r.content,
        DUMP.replace("CREATE TYPE mood AS ENUM (\n    'sad',\n    'ok'\n);\n", "")
    );
}

#[test]
fn indexes_plain_and_unique_are_removed() {
    let inc = Inclusions { indexes: false, ..all() };
    let r = filter_text(DUMP, &inc);
    assert_eq!(r.excluded, 2);
    assert_eq!(
        r.content,
        DUMP.replace("CREATE INDEX users_name ON users USING btree (name);\n", "")
            .replace("CREATE UNIQUE INDEX users_id ON users USING btree (id);\n", "")
    );
}

#[test]
fn constraints_are_removed_where_their_line_names_them() {
    let inc = Inclusions { constraints: false, ..all() };
    let r = filter_text(DUMP, &inc);
    // The constraint that stands on the line after ALTER TABLE is not seen;
    // the one on the line of ALTER TABLE is.
    assert_eq!(r.excluded, 1);
    assert_eq!(
        r.content,
        DUMP.replace(
            "ALTER TABLE ONLY orders ADD CONSTRAINT o_fk FOREIGN KEY (u) REFERENCES users(id);\n",
            ""
        )
    );
    let r = filter_text("ALTER TABLE t\n    ADD FOREIGN KEY (a)\n    REFERENCES u(a);\nSELECT 1;\n", &inc);
    assert_eq!(r.content, "ALTER TABLE t\nSELECT 1;\n");
    assert_eq!(r.excluded, 1);
}

#[test]
fn sequences_and_their_calls_are_removed() {
    let inc = Inclusions { sequences: false, ..all() };
    let r = filter_text(DUMP, &inc);
    assert_eq!(r.excluded, 3);
    assert_eq!(
        r.content,
        DUMP.replace("CREATE SEQUENCE users_id_seq\n    START WITH 1\n    NO MAXVALUE;\n", "")
            .replace("ALTER SEQUENCE users_id_seq OWNED BY users.id;\n", "")
            .replace("SELECT pg_catalog.setval('users_id_seq', 7, true);\n", "")
    );
}

#[test]
fn a_function_is_removed_up_to_the_next_line_that_ends_in_a_semicolon() {
    let inc = Inclusions { functions: false, ..all() };
    let r = filter_text(DUMP, &inc);
    assert_eq!(r.excluded, 1);
    // The removal ends at the first line of the body that ends in a
    // semicolon; the rest of the body stays.
    assert_eq!(
        r.content,
        DUMP.replace(
            "CREATE FUNCTION touch() RETURNS trigger\n    LANGUAGE plpgsql\n    AS $$\nBEGIN\n    NEW.seen := now();\n",
            ""
        )
    );
    let one_line = "CREATE OR REPLACE FUNCTION f() RETURNS int LANGUAGE sql AS 'SELECT 1';\nSELECT 2;\nSELECT 3;\n";
    let r = filter_text(one_line, &inc);
    assert_eq!(r.content, "SELECT 3;\n");
    assert_eq!(r.excluded, 1);
    let r = filter_text("CREATE PROCEDURE p()\nAS 'x';\nCREATE OR REPLACE PROCEDURE q()\nAS 'y';\nEND\n", &inc);
    assert_eq!(r.content, "END\n");
    assert_eq!(r.excluded, 2);
}

#[test]
fn views_and_triggers_are_removed() {
    let inc = Inclusions { views: false, triggers: false, ..all() };
    let r = filter_text(DUMP, &inc);
    assert_eq!(r.excluded, 2);
    assert_eq!(
        r.content,
        DUMP.replace("CREATE VIEW names AS\n SELECT name\n   FROM users;\n", "").replace(
            "CREATE TRIGGER touch_users BEFORE UPDATE ON users FOR EACH ROW EXECUTE FUNCTION touch();\n",
            ""
        )
    );
    let r = filter_text("CREATE OR REPLACE VIEW v AS SELECT 1;\nx\n", &inc);
    assert_eq!(r.content, "x\n");
}

#[test]
fn statements_inside_a_removed_statement_are_not_counted() {
    let inc = Inclusions { comments: false, indexes: false, ..all() };
    let r = filter_text("COMMENT ON TABLE t IS 'a\nCREATE INDEX i ON t (x)\nb';\nCREATE INDEX j ON t (y);\nkeep\n", &inc);
    assert_eq!(r.content, "keep\n");
    assert_eq!(r.excluded, 2);
}

#[test]
fn a_removal_that_never_ends_takes_the_rest() {
    let inc = Inclusions { views: false, ..all() };
    let r = filter_text("a\nCREATE VIEW v AS\n SELECT 1\nb\n", &inc);
    assert_eq!(r.content, "a\n");
    assert_eq!(r.excluded, 1);
}

#[test]
fn leading_whitespace_does_not_hide_a_statement() {
    let inc = Inclusions { comments: false, ..all() };
    let r = filter_text("   COMMENT ON COLUMN t.c IS 'x';  \n\tkeep;\n", &inc);
    assert_eq!(r.content, "\tkeep;\n");
    assert_eq!(r.excluded, 1);
    let r = filter_text("-- COMMENT ON nothing\ncomment on t is 'lower';\n", &inc);
    assert_eq!(r.content, "-- COMMENT ON nothing\ncomment on t is 'lower';\n");
    assert_eq!(r.excluded, 0);
}

#[test]
fn filtering_twice_is_filtering_once() {
    let choices = [
        all(),
        Inclusions { comments: false, ..all() },
        Inclusions { functions: false, views: false, ..all() },
        Inclusions { sequences: false, constraints: false, indexes: false, ..all() },
        Inclusions {
            comments: false,
            indexes: false,
            constraints: false,
            triggers: false,
            sequences: false,
            types: false,
            functions: false,
            views: false,
        },
    ];
    for inc in choices.iter() {
        for dump in [DUMP, "a\r\nCOMMENT ON x;\r\nb", "", "CREATE VIEW v AS\nSELECT 1;\nx"] {
            let once = filter_text(dump, inc);
            let twice = filter_text(&once.content, inc);
            assert_eq!(twice.content, once.content);
            assert_eq!(twice.excluded, 0);
        }
    }
}

#[test]
fn a_kept_line_that_ends_in_a_carriage_return_changes_on_the_second_pass() {
    let once = filter_text("a\r\r\n", &all());
    assert_eq!(once.content, "a\r\n");
    let twice = filter_text(&once.content, &all());
    assert_eq!(twice.content, "a\n");
}

#[test]
fn the_kinds_are_tried_in_a_fixed_order() {
    let none = Inclusions {
        comments: false,
        indexes: false,
        constraints: false,
        triggers: false,
        sequences: false,
        types: false,
        functions: false,
        views: false,
    };
    assert_eq!(removal_of(&chars("COMMENT ON x"), &none), Some(Removal::Statement));
    assert_eq!(removal_of(&chars("CREATE FUNCTION f()"), &none), Some(Removal::Body));
    // A function whose line names a foreign key is taken for a constraint.
    assert_eq!(
        removal_of(&chars("CREATE FUNCTION f() -- FOREIGN KEY"), &none),
        Some(Removal::Statement)
    );
    assert_eq!(removal_of(&chars("CREATE TABLE t ("), &none), None);
    assert_eq!(removal_of(&chars("CREATE FUNCTION f()"), &all()), None);
    assert_eq!(removal_of(&chars("ALTER TABLE t ADD COLUMN c int;"), &none), None);
    assert_eq!(
        removal_of(&chars("ALTER TABLE t ADD CONSTRAINT c CHECK (x > 0);"), &none),
        Some(Removal::Statement)
    );
}

#[test]
fn the_options_of_an_export_choose_what_the_filter_removes() {
    let mut options = SchemaExportOptions::everything("profile-a".to_string());
    let r = filter_schema_content(DUMP, &options);
    assert_eq!(r.content, DUMP);
    assert_eq!(r.excluded, 0);
    options.include_comments = false;
    options.include_triggers = false;
    let r = filter_schema_content(DUMP, &options);
    assert_eq!(r.excluded, 2);
    assert!(!r.content.contains("COMMENT ON"));
    assert!(!r.content.contains("CREATE TRIGGER"));
    assert!(r.content.contains("CREATE VIEW"));
}

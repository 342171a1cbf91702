use schema_manager::{
    render, Dialects, Engine, SchemaError, SchemaManager, SchemaManagerConnection, SchemaStatement,
};
use sea_orm::sea_query::extension::postgres::{
    Type, TypeAlterStatement, TypeCreateStatement, TypeDropStatement,
};
use sea_orm::sea_query::{
    Alias, ColumnDef, ForeignKey, ForeignKeyCreateStatement, ForeignKeyDropStatement, Index,
    IndexCreateStatement, IndexDropStatement, Table, TableAlterStatement, TableCreateStatement,
    TableDropStatement, TableRenameStatement, TableTruncateStatement,
};
use sea_orm::{DatabaseBackend, Statement};

fn manager(engine: Engine) -> SchemaManager {
    SchemaManager::new(SchemaManagerConnection::Connection(engine))
}

fn bare(engine: Engine) -> SchemaManager {
    SchemaManager::with_dialects(
        SchemaManagerConnection::Connection(engine),
        Dialects::all().without(engine),
    )
}

fn command(backend: DatabaseBackend, sql: &str) -> Result<Statement, SchemaError> {
    Ok(Statement::from_string(backend, sql))
}

fn users() -> TableCreateStatement {
    Table::create()
        .table(Alias::new("users"))
        .if_not_exists()
        .col(ColumnDef::new(Alias::new("id")).integer().not_null().primary_key())
        .col(ColumnDef::new(Alias::new("name")).string().not_null())
        .to_owned()
}

fn users_name_index() -> IndexCreateStatement {
    Index::create()
        .name("idx_users_name")
        .table(Alias::new("users"))
        .col(Alias::new("name"))
        .to_owned()
}

fn posts_user_key() -> ForeignKeyCreateStatement {
    ForeignKey::create()
        .name("fk_posts_user")
        .from(Alias::new("posts"), Alias::new("user_id"))
        .to(Alias::new("users"), Alias::new("id"))
        .to_owned()
}

fn mood() -> TypeCreateStatement {
    Type::create()
        .as_enum(Alias::new("mood"))
        .values([Alias::new("happy"), Alias::new("sad")])
        .to_owned()
}

fn add_email() -> TableAlterStatement {
    Table::alter()
        .table(Alias::new("users"))
        .add_column(ColumnDef::new(Alias::new("email")).string())
        .to_owned()
}

fn drop_users() -> TableDropStatement {
    Table::drop().table(Alias::new("users")).to_owned()
}

fn users_to_people() -> TableRenameStatement {
    Table::rename().table(Alias::new("users"), Alias::new("people")).to_owned()
}

fn empty_users() -> TableTruncateStatement {
    Table::truncate().table(Alias::new("users")).to_owned()
}

fn drop_users_name_index() -> IndexDropStatement {
    Index::drop().name("idx_users_name").table(Alias::new("users")).to_owned()
}

fn drop_posts_user_key() -> ForeignKeyDropStatement {
    ForeignKey::drop().name("fk_posts_user").table(Alias::new("posts")).to_owned()
}

fn calmer_mood() -> TypeAlterStatement {
    Type::alter().name(Alias::new("mood")).add_value(Alias::new("calm"))
}

fn drop_mood() -> TypeDropStatement {
    Type::drop().name(Alias::new("mood")).to_owned()
}

#[test]
fn create_table_in_each_dialect() {
    assert_eq!(
        manager(Engine::Sqlite).create_table(users()),
        command(DatabaseBackend::Sqlite, "CREATE TABLE IF NOT EXISTS \"users\" ( \"id\" integer NOT NULL PRIMARY KEY, \"name\" varchar NOT NULL )")
    );
    assert_eq!(
        manager(Engine::MySql).create_table(users()),
        command(DatabaseBackend::MySql, "CREATE TABLE IF NOT EXISTS `users` ( `id` int NOT NULL PRIMARY KEY, `name` varchar(255) NOT NULL )")
    );
    assert_eq!(
        manager(Engine::Postgres).create_table(users()),
        command(DatabaseBackend::Postgres, "CREATE TABLE IF NOT EXISTS \"users\" ( \"id\" integer NOT NULL PRIMARY KEY, \"name\" varchar NOT NULL )")
    );
}

#[test]
fn create_index_in_each_dialect() {
    assert_eq!(
        manager(Engine::Sqlite).create_index(users_name_index()),
        command(DatabaseBackend::Sqlite, "CREATE INDEX \"idx_users_name\" ON \"users\" (\"name\")")
    );
    assert_eq!(
        manager(Engine::MySql).create_index(users_name_index()),
        command(DatabaseBackend::MySql, "CREATE INDEX `idx_users_name` ON `users` (`name`)")
    );
    assert_eq!(
        manager(Engine::Postgres).create_index(users_name_index()),
        command(DatabaseBackend::Postgres, "CREATE INDEX \"idx_users_name\" ON \"users\" (\"name\")")
    );
}

#[test]
fn create_foreign_key_where_the_dialect_can() {
    assert_eq!(
        manager(Engine::MySql).create_foreign_key(posts_user_key()),
        command(DatabaseBackend::MySql, "ALTER TABLE `posts` ADD CONSTRAINT `fk_posts_user` FOREIGN KEY (`user_id`) REFERENCES `users` (`id`)")
    );
    assert_eq!(
        manager(Engine::Postgres).create_foreign_key(posts_user_key()),
        command(DatabaseBackend::Postgres, "ALTER TABLE \"posts\" ADD CONSTRAINT \"fk_posts_user\" FOREIGN KEY (\"user_id\") REFERENCES \"users\" (\"id\")")
    );
}

#[test]
fn create_type_on_postgres() {
    assert_eq!(
        manager(Engine::Postgres).create_type(mood()),
        command(DatabaseBackend::Postgres, "CREATE TYPE \"mood\" AS ENUM ('happy', 'sad')")
    );
}

#[test]
fn alter_table_in_each_dialect() {
    assert_eq!(
        manager(Engine::Sqlite).alter_table(add_email()),
        command(DatabaseBackend::Sqlite, "ALTER TABLE \"users\" ADD COLUMN \"email\" varchar")
    );
    assert_eq!(
        manager(Engine::MySql).alter_table(add_email()),
        command(DatabaseBackend::MySql, "ALTER TABLE `users` ADD COLUMN `email` varchar(255)")
    );
    assert_eq!(
        manager(Engine::Postgres).alter_table(add_email()),
        command(DatabaseBackend::Postgres, "ALTER TABLE \"users\" ADD COLUMN \"email\" varchar")
    );
}

#[test]
fn drop_table_in_each_dialect() {
    assert_eq!(
        manager(Engine::Sqlite).drop_table(drop_users()),
        command(DatabaseBackend::Sqlite, "DROP TABLE \"users\"")
    );
    assert_eq!(
        manager(Engine::MySql).drop_table(drop_users()),
        command(DatabaseBackend::MySql, "DROP TABLE `users`")
    );
    assert_eq!(
        manager(Engine::Postgres).drop_table(drop_users()),
        command(DatabaseBackend::Postgres, "DROP TABLE \"users\"")
    );
}

#[test]
fn rename_table_in_each_dialect() {
    assert_eq!(
        manager(Engine::Sqlite).rename_table(users_to_people()),
        command(DatabaseBackend::Sqlite, "ALTER TABLE \"users\" RENAME TO \"people\"")
    );
    assert_eq!(
        manager(Engine::MySql).rename_table(users_to_people()),
        command(DatabaseBackend::MySql, "RENAME TABLE `users` TO `people`")
    );
    assert_eq!(
        manager(Engine::Postgres).rename_table(users_to_people()),
        command(DatabaseBackend::Postgres, "ALTER TABLE \"users\" RENAME TO \"people\"")
    );
}

#[test]
fn truncate_table_where_the_dialect_can() {
    assert_eq!(
        manager(Engine::MySql).truncate_table(empty_users()),
        command(DatabaseBackend::MySql, "TRUNCATE TABLE `users`")
    );
    assert_eq!(
        manager(Engine::Postgres).truncate_table(empty_users()),
        command(DatabaseBackend::Postgres, "TRUNCATE TABLE \"users\"")
    );
}

#[test]
fn drop_index_in_each_dialect() {
    assert_eq!(
        manager(Engine::Sqlite).drop_index(drop_users_name_index()),
        command(DatabaseBackend::Sqlite, "DROP INDEX \"idx_users_name\"")
    );
    assert_eq!(
        manager(Engine::MySql).drop_index(drop_users_name_index()),
        command(DatabaseBackend::MySql, "DROP INDEX `idx_users_name` ON `users`")
    );
    assert_eq!(
        manager(Engine::Postgres).drop_index(drop_users_name_index()),
        command(DatabaseBackend::Postgres, "DROP INDEX \"idx_users_name\"")
    );
}

#[test]
fn drop_foreign_key_where_the_dialect_can() {
    assert_eq!(
        manager(Engine::MySql).drop_foreign_key(drop_posts_user_key()),
        command(DatabaseBackend::MySql, "ALTER TABLE `posts` DROP FOREIGN KEY `fk_posts_user`")
    );
    assert_eq!(
        manager(Engine::Postgres).drop_foreign_key(drop_posts_user_key()),
        command(DatabaseBackend::Postgres, "ALTER TABLE \"posts\" DROP CONSTRAINT \"fk_posts_user\"")
    );
}

#[test]
fn alter_type_on_postgres() {
    assert_eq!(
        manager(Engine::Postgres).alter_type(calmer_mood()),
        command(DatabaseBackend::Postgres, "ALTER TYPE \"mood\" ADD VALUE 'calm'")
    );
}

#[test]
fn drop_type_on_postgres() {
    assert_eq!(
        manager(Engine::Postgres).drop_type(drop_mood()),
        command(DatabaseBackend::Postgres, "DROP TYPE \"mood\"")
    );
}

#[test]
fn exec_stmt_renders_like_the_named_operations() {
    let manager = manager(Engine::Postgres);
    assert_eq!(
        manager.exec_stmt(SchemaStatement::TableCreate(users())),
        manager.create_table(users())
    );
    assert_eq!(
        manager.exec_stmt(SchemaStatement::IndexCreate(users_name_index())),
        manager.create_index(users_name_index())
    );
    assert_eq!(
        manager.exec_stmt(SchemaStatement::ForeignKeyCreate(posts_user_key())),
        manager.create_foreign_key(posts_user_key())
    );
    assert_eq!(
        manager.exec_stmt(SchemaStatement::TypeCreate(mood())),
        manager.create_type(mood())
    );
    assert_eq!(
        manager.exec_stmt(SchemaStatement::TableAlter(add_email())),
        manager.alter_table(add_email())
    );
    assert_eq!(
        manager.exec_stmt(SchemaStatement::TableDrop(drop_users())),
        manager.drop_table(drop_users())
    );
    assert_eq!(
        manager.exec_stmt(SchemaStatement::TableRename(users_to_people())),
        manager.rename_table(users_to_people())
    );
    assert_eq!(
        manager.exec_stmt(SchemaStatement::TableTruncate(empty_users())),
        manager.truncate_table(empty_users())
    );
    assert_eq!(
        manager.exec_stmt(SchemaStatement::IndexDrop(drop_users_name_index())),
        manager.drop_index(drop_users_name_index())
    );
    assert_eq!(
        manager.exec_stmt(SchemaStatement::ForeignKeyDrop(drop_posts_user_key())),
        manager.drop_foreign_key(drop_posts_user_key())
    );
    assert_eq!(
        manager.exec_stmt(SchemaStatement::TypeAlter(calmer_mood())),
        manager.alter_type(calmer_mood())
    );
    assert_eq!(
        manager.exec_stmt(SchemaStatement::TypeDrop(drop_mood())),
        manager.drop_type(drop_mood())
    );
}

#[test]
fn rendering_is_what_the_backend_builds() {
    let cases = [
        (Engine::MySql, DatabaseBackend::MySql),
        (Engine::Postgres, DatabaseBackend::Postgres),
        (Engine::Sqlite, DatabaseBackend::Sqlite),
    ];
    for (engine, backend) in cases {
        assert_eq!(
            render(engine, &SchemaStatement::TableCreate(users())),
            backend.build(&users())
        );
        assert_eq!(
            render(engine, &SchemaStatement::IndexDrop(drop_users_name_index())),
            backend.build(&drop_users_name_index())
        );
        assert_eq!(
            Dialects::all().command(engine, &SchemaStatement::TableDrop(drop_users())),
            Ok(backend.build(&drop_users()))
        );
    }
}

#[test]
fn transaction_scope_renders_like_a_connection() {
    for engine in [Engine::MySql, Engine::Postgres, Engine::Sqlite] {
        let scoped = SchemaManager::new(SchemaManagerConnection::Transaction(engine));
        assert_eq!(scoped.create_table(users()), manager(engine).create_table(users()));
    }
}

#[test]
fn absent_dialect_fails_every_mutation() {
    for engine in [Engine::MySql, Engine::Postgres, Engine::Sqlite] {
        let manager = bare(engine);
        let unsupported = Err(SchemaError::Unsupported(engine));
        assert_eq!(manager.create_table(users()), unsupported);
        assert_eq!(manager.create_index(users_name_index()), unsupported);
        assert_eq!(manager.create_foreign_key(posts_user_key()), unsupported);
        assert_eq!(manager.create_type(mood()), unsupported);
        assert_eq!(manager.alter_table(add_email()), unsupported);
        assert_eq!(manager.drop_table(drop_users()), unsupported);
        assert_eq!(manager.rename_table(users_to_people()), unsupported);
        assert_eq!(manager.truncate_table(empty_users()), unsupported);
        assert_eq!(manager.drop_index(drop_users_name_index()), unsupported);
        assert_eq!(manager.drop_foreign_key(drop_posts_user_key()), unsupported);
        assert_eq!(manager.alter_type(calmer_mood()), unsupported);
        assert_eq!(manager.drop_type(drop_mood()), unsupported);
        assert_eq!(manager.exec_stmt(SchemaStatement::TableDrop(drop_users())), unsupported);
        assert_eq!(
            Dialects::none().command(engine, &SchemaStatement::TableDrop(drop_users())),
            unsupported
        );
    }
}

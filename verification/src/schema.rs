use vstd::prelude::*;

verus! {

/// The SQL type of a column.
#[derive(Debug, Clone, Copy, PartialEq, Eq)]
pub enum ColumnType {
    Integer,
    Text,
    Float,
    Uuid,
    DateTime,
}

/// One column of a table: its name, type and constraints, and the extra
/// SQL written after them (a default value).
#[derive(Debug, Clone)]
pub struct ColumnSpec {
    pub name: String,
    pub kind: ColumnType,
    pub nullable: bool,
    pub auto_increment: bool,
    pub primary_key: bool,
    pub unique: bool,
    pub extra: Option<String>,
}

/// A table to create when it does not exist yet.
#[derive(Debug, Clone)]
pub struct TableSpec {
    pub name: String,
    pub columns: Vec<ColumnSpec>,
}

/// The abstract form of a [`ColumnSpec`].
pub struct ColumnView {
    pub name: Seq<char>,
    pub kind: ColumnType,
    pub nullable: bool,
    pub auto_increment: bool,
    pub primary_key: bool,
    pub unique: bool,
    pub extra: Option<Seq<char>>,
}

/// The abstract form of a [`TableSpec`].
pub struct TableView {
    pub name: Seq<char>,
    pub columns: Seq<ColumnView>,
}

impl View for ColumnSpec {
    type V = ColumnView;

    open spec fn view(&self) -> ColumnView {
        ColumnView {
            name: self.name@,
            kind: self.kind,
            nullable: self.nullable,
            auto_increment: self.auto_increment,
            primary_key: self.primary_key,
            unique: self.unique,
            extra: match self.extra {
                Some(e) => Some(e@),
                None => None,
            },
        }
    }
}

impl View for TableSpec {
    type V = TableView;

    open spec fn view(&self) -> TableView {
        TableView { name: self.name@, columns: self.columns@.map_values(|c: ColumnSpec| c@) }
    }
}

/// The default of a creation time: the time the row is inserted.
pub open spec fn created_default() -> Seq<char> {
    "DEFAULT CURRENT_TIMESTAMP"@
}

/// The default of an update time: the time the row is inserted, renewed on
/// every update.
pub open spec fn updated_default() -> Seq<char> {
    "DEFAULT CURRENT_TIMESTAMP ON UPDATE CURRENT_TIMESTAMP"@
}

/// The `id` column every table starts with: an auto-incremented integer
/// primary key.
pub open spec fn id_column() -> ColumnView {
    ColumnView {
        name: "id"@,
        kind: ColumnType::Integer,
        nullable: false,
        auto_increment: true,
        primary_key: true,
        unique: false,
        extra: None,
    }
}

/// A required column with no constraint but `NOT NULL`.
pub open spec fn required_column(name: Seq<char>, kind: ColumnType) -> ColumnView {
    ColumnView { name, kind, nullable: false, auto_increment: false, primary_key: false, unique: false, extra: None }
}

/// A required time column with the given default.
pub open spec fn stamp_column(name: Seq<char>, default: Seq<char>) -> ColumnView {
    ColumnView {
        name,
        kind: ColumnType::DateTime,
        nullable: false,
        auto_increment: false,
        primary_key: false,
        unique: false,
        extra: Some(default),
    }
}

/// The user accounts: a unique e-mail, the password, address and phone, and
/// the creation and update times.
pub open spec fn user_table_view() -> TableView {
    TableView {
        name: "user"@,
        columns: seq![
            id_column(),
            ColumnView { unique: true, ..required_column("email"@, ColumnType::Text) },
            required_column("password"@, ColumnType::Text),
            required_column("address"@, ColumnType::Text),
            required_column("phone"@, ColumnType::Text),
            stamp_column("created_at"@, created_default()),
            stamp_column("updated_at"@, updated_default()),
        ],
    }
}

/// The products of the inventory: name, description and price, and the
/// creation and update times.
pub open spec fn product_table_view() -> TableView {
    TableView {
        name: "product"@,
        columns: seq![
            id_column(),
            required_column("name"@, ColumnType::Text),
            required_column("description"@, ColumnType::Text),
            required_column("price"@, ColumnType::Float),
            stamp_column("created_at"@, created_default()),
            stamp_column("updated_at"@, updated_default()),
        ],
    }
}

/// The cart rows: a product in a user's cart, with the order request that
/// locked it (none while the row is open), and the creation and update
/// times.
pub open spec fn cart_table_view() -> TableView {
    TableView {
        name: "cart"@,
        columns: seq![
            id_column(),
            required_column("user_id"@, ColumnType::Integer),
            required_column("product_id"@, ColumnType::Integer),
            ColumnView { nullable: true, ..required_column("order_request_id"@, ColumnType::Uuid) },
            stamp_column("created_at"@, created_default()),
            stamp_column("updated_at"@, updated_default()),
        ],
    }
}

fn id_spec() -> (c: ColumnSpec)
    ensures
        c@ == id_column(),
{
    ColumnSpec {
        name: String::from_str("id"),
        kind: ColumnType::Integer,
        nullable: false,
        auto_increment: true,
        primary_key: true,
        unique: false,
        extra: None,
    }
}

fn required_spec(name: &str, kind: ColumnType) -> (c: ColumnSpec)
    ensures
        c@ == required_column(name@, kind),
{
    ColumnSpec {
        name: String::from_str(name),
        kind,
        nullable: false,
        auto_increment: false,
        primary_key: false,
        unique: false,
        extra: None,
    }
}

fn created_spec() -> (c: ColumnSpec)
    ensures
        c@ == stamp_column("created_at"@, created_default()),
{
    ColumnSpec {
        name: String::from_str("created_at"),
        kind: ColumnType::DateTime,
        nullable: false,
        auto_increment: false,
        primary_key: false,
        unique: false,
        extra: Some(String::from_str("DEFAULT CURRENT_TIMESTAMP")),
    }
}

fn updated_spec() -> (c: ColumnSpec)
    ensures
        c@ == stamp_column("updated_at"@, updated_default()),
{
    ColumnSpec {
        name: String::from_str("updated_at"),
        kind: ColumnType::DateTime,
        nullable: false,
        auto_increment: false,
        primary_key: false,
        unique: false,
        extra: Some(String::from_str("DEFAULT CURRENT_TIMESTAMP ON UPDATE CURRENT_TIMESTAMP")),
    }
}

/// The definition of the user table.
pub fn user_table() -> (t: TableSpec)
    ensures
        t@ == user_table_view(),
{
    let mut email = required_spec("email", ColumnType::Text);
    email.unique = true;
    let columns: Vec<ColumnSpec> = vec![
        id_spec(),
        email,
        required_spec("password", ColumnType::Text),
        required_spec("address", ColumnType::Text),
        required_spec("phone", ColumnType::Text),
        created_spec(),
        updated_spec(),
    ];
    let t = TableSpec { name: String::from_str("user"), columns };
    assert(t@.columns =~= user_table_view().columns);
    t
}

/// The definition of the product table.
pub fn product_table() -> (t: TableSpec)
    ensures
        t@ == product_table_view(),
{
    let columns: Vec<ColumnSpec> = vec![
        id_spec(),
        required_spec("name", ColumnType::Text),
        required_spec("description", ColumnType::Text),
        required_spec("price", ColumnType::Float),
        created_spec(),
        updated_spec(),
    ];
    let t = TableSpec { name: String::from_str("product"), columns };
    assert(t@.columns =~= product_table_view().columns);
    t
}

/// The definition of the cart table.
pub fn cart_table() -> (t: TableSpec)
    ensures
        t@ == cart_table_view(),
{
    let mut order_request_id = required_spec("order_request_id", ColumnType::Uuid);
    order_request_id.nullable = true;
    let columns: Vec<ColumnSpec> = vec![
        id_spec(),
        required_spec("user_id", ColumnType::Integer),
        required_spec("product_id", ColumnType::Integer),
        order_request_id,
        created_spec(),
        updated_spec(),
    ];
    let t = TableSpec { name: String::from_str("cart"), columns };
    assert(t@.columns =~= cart_table_view().columns);
    t
}

/// A migration: its name, under which the migrator records that it ran,
/// and the table it creates (and drops when rolled back).
#[derive(Debug, Clone)]
pub struct MigrationSpec {
    pub name: String,
    pub table: TableSpec,
}

/// The abstract form of a [`MigrationSpec`].
pub struct MigrationView {
    pub name: Seq<char>,
    pub table: TableView,
}

impl View for MigrationSpec {
    type V = MigrationView;

    open spec fn view(&self) -> MigrationView {
        MigrationView { name: self.name@, table: self.table@ }
    }
}

/// The migrations in the order they run: the user table, the product table,
/// then the cart table, each named after the table it creates.
pub open spec fn migration_list() -> Seq<MigrationView> {
    seq![
        MigrationView { name: "create_user_table"@, table: user_table_view() },
        MigrationView { name: "create_product_table"@, table: product_table_view() },
        MigrationView { name: "create_cart_table"@, table: cart_table_view() },
    ]
}

/// The migrations, in the order they run.
pub fn migrations() -> (list: Vec<MigrationSpec>)
    ensures
        list@.map_values(|m: MigrationSpec| m@) == migration_list(),
{
    let list: Vec<MigrationSpec> = vec![
        MigrationSpec { name: String::from_str("create_user_table"), table: user_table() },
        MigrationSpec { name: String::from_str("create_product_table"), table: product_table() },
        MigrationSpec { name: String::from_str("create_cart_table"), table: cart_table() },
    ];
    assert(list@.map_values(|m: MigrationSpec| m@) =~= migration_list());
    list
}

/// A table is well formed when its first column is the auto-incremented
/// integer key `id`, no other column is a key or auto-incremented, and no
/// two columns share a name.
pub open spec fn well_formed(t: TableView) -> bool {
    &&& t.columns.len() > 0
    &&& t.columns[0] == id_column()
    &&& forall|k: int| 0 < k < t.columns.len() ==> !(#[trigger] t.columns[k]).primary_key && !t.columns[k].auto_increment
    &&& forall|i: int, j: int| 0 <= i < j < t.columns.len() ==> #[trigger] t.columns[i].name != #[trigger] t.columns[j].name
}

/// Every table the migrations create is well formed.
pub proof fn lemma_tables_well_formed()
    ensures
        well_formed(user_table_view()),
        well_formed(product_table_view()),
        well_formed(cart_table_view()),
{
    reveal_strlit("id");
    reveal_strlit("email");
    reveal_strlit("password");
    reveal_strlit("address");
    reveal_strlit("phone");
    reveal_strlit("created_at");
    reveal_strlit("updated_at");
    reveal_strlit("name");
    reveal_strlit("description");
    reveal_strlit("price");
    reveal_strlit("user_id");
    reveal_strlit("product_id");
    reveal_strlit("order_request_id");
    let u = user_table_view().columns;
    assert forall|i: int, j: int| 0 <= i < j < u.len() implies #[trigger] u[i].name != #[trigger] u[j].name by {
        assert(u[i].name.len() != u[j].name.len() || u[i].name[0] != u[j].name[0]);
    }
    let p = product_table_view().columns;
    assert forall|i: int, j: int| 0 <= i < j < p.len() implies #[trigger] p[i].name != #[trigger] p[j].name by {
        assert(p[i].name.len() != p[j].name.len() || p[i].name[0] != p[j].name[0]);
    }
    let c = cart_table_view().columns;
    assert forall|i: int, j: int| 0 <= i < j < c.len() implies #[trigger] c[i].name != #[trigger] c[j].name by {
        assert(c[i].name.len() != c[j].name.len() || c[i].name[0] != c[j].name[0]);
    }
}

} // verus!

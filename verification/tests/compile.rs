use accessor_gen::compiler::{
    build_class, build_enum, compile, compile_file, import_list, is_allowed_extension, JavaSource,
    SchemaFile, SourceError,
};
use accessor_gen::java::Visibility;
use accessor_gen::schema::{Field, Object, Type, Variant};

fn player() -> Object {
    Object {
        name: "Player".to_string(),
        rename: None,
        package: "p".to_string(),
        includes: vec![],
        variants: vec![],
        fields: vec![Field { name: "health".to_string(), rename: None, field_type: Type::I32, hierarchy: false }],
    }
}

fn hero() -> Object {
    Object {
        name: "Player".to_string(),
        rename: Some("Hero".to_string()),
        package: "game.model".to_string(),
        includes: vec![],
        variants: vec![],
        fields: vec![Field { name: "a".to_string(), rename: Some("health".to_string()), field_type: Type::I32, hierarchy: false },
            Field { name: "alive".to_string(), rename: None, field_type: Type::Bool, hierarchy: true },
            Field { name: "id".to_string(), rename: None, field_type: Type::I64, hierarchy: false },
            Field { name: "tag".to_string(), rename: None, field_type: Type::U8, hierarchy: false },
            Field { name: "level".to_string(), rename: None, field_type: Type::I16, hierarchy: false },
            Field { name: "speed".to_string(), rename: None, field_type: Type::F32, hierarchy: false },
            Field { name: "mass".to_string(), rename: None, field_type: Type::F64, hierarchy: false },
            Field { name: "title".to_string(), rename: None, field_type: Type::String, hierarchy: false },
            Field { name: "scores".to_string(), rename: None, field_type: Type::Array(Box::new(Type::I32)), hierarchy: false },
            Field { name: "kind".to_string(), rename: None, field_type: Type::Object("Kind".to_string()), hierarchy: false },
            Field { name: "b".to_string(), rename: Some("item".to_string()), field_type: Type::Object("Item".to_string()), hierarchy: true },
            Field { name: "items".to_string(), rename: None, field_type: Type::Array(Box::new(Type::Object("Item".to_string()))), hierarchy: false },
            Field { name: "grid".to_string(), rename: None, field_type: Type::Array(Box::new(Type::Array(Box::new(Type::SelfObject)))), hierarchy: false },
            Field { name: "kinds".to_string(), rename: None, field_type: Type::Array(Box::new(Type::Object("Kind".to_string()))), hierarchy: false },
            Field { name: "friend".to_string(), rename: None, field_type: Type::SelfObject, hierarchy: false },
            Field { name: "other".to_string(), rename: None, field_type: Type::Object("Other".to_string()), hierarchy: false }],
    }
}

fn kind() -> Object {
    Object {
        name: "Kind".to_string(),
        rename: None,
        package: "game.kinds".to_string(),
        includes: vec![],
        variants: vec![Variant { name: "A".to_string(), rename: None, aliases: vec![] }, Variant { name: "B".to_string(), rename: Some("Second".to_string()), aliases: vec!["b".to_string()] }],
        fields: vec![],
    }
}

fn item() -> Object {
    Object {
        name: "Item".to_string(),
        rename: Some("Thing".to_string()),
        package: "game.items".to_string(),
        includes: vec![],
        variants: vec![],
        fields: vec![Field { name: "n".to_string(), rename: None, field_type: Type::I32, hierarchy: false }],
    }
}

fn colour() -> Object {
    Object {
        name: "Color".to_string(),
        rename: Some("Colour".to_string()),
        package: "game.kinds".to_string(),
        includes: vec!["item.ron".to_string()],
        variants: vec![Variant { name: "RED".to_string(), rename: None, aliases: vec![] }, Variant { name: "GREEN".to_string(), rename: Some("Green".to_string()), aliases: vec![] }, Variant { name: "BLUE".to_string(), rename: None, aliases: vec!["azure".to_string()] }],
        fields: vec![],
    }
}

fn plain() -> Object {
    Object {
        name: "Empty".to_string(),
        rename: None,
        package: "p".to_string(),
        includes: vec![],
        variants: vec![],
        fields: vec![],
    }
}

fn ambiguous() -> Object {
    let mut o = player();
    o.variants = kind().variants;
    o
}

fn entry(path: &str, schema: Result<Object, SourceError>) -> SchemaFile {
    SchemaFile {
        path: path.to_string(),
        file_name: path.rsplit('/').next().unwrap().to_string(),
        output: "out/dir".to_string(),
        schema,
        includes: Ok(vec![]),
    }
}

fn file(result: Result<JavaSource, SourceError>) -> JavaSource {
    match result {
        Ok(source) => source,
        Err(error) => panic!("{}", error.message()),
    }
}

#[test]
fn is_allowed_extension_accepts_one() {
    assert!(is_allowed_extension("ron"));
    assert!(!is_allowed_extension("RON"));
    assert!(!is_allowed_extension("json"));
    assert!(!is_allowed_extension(""));
    assert!(!is_allowed_extension("ron "));
}

#[test]
fn error_messages() {
    assert_eq!(
        SourceError::IO("gone".to_string()).message(),
        "An IO error ocurred while reading a source file or directory: gone"
    );
    assert_eq!(
        SourceError::Deserialization("1:2: bad".to_string()).message(),
        "An error ocurred while deserializing the file: 1:2: bad"
    );
    assert_eq!(
        SourceError::AmbiguousClassOrEnum.message(),
        "Object had both fields and variants, the type between enum or class could not be determined."
    );
    assert_eq!(SourceError::IO("gone".to_string()).clone().message(), SourceError::IO("gone".to_string()).message());
}

#[test]
fn player_end_to_end() {
    let source = file(compile_file("player.ron", "out", &player(), &Ok(vec![])));
    assert_eq!(source.directory, "out");
    assert_eq!(source.file_name, "PlayerAccessor.java");
    assert_eq!(source.content, r###"package p;

// Class autogenerated from player.ron. DO NOT EDIT
// Original name: Player
public class PlayerAccessor {
	private Object self;
	public int health;


	public PlayerAccessor(Object self) {		
		this.self = self;
	}

	public static PlayerAccessor access(Object object) throws NoSuchFieldException, SecurityException, IllegalArgumentException, IllegalAccessException {		
		if (object == null) return null;
		
		var accessor = new PlayerAccessor(object);
		var clazz = object.getClass();
		if (clazz.isEnum()) throw new RuntimeException("Failed to access Player: Expected object to be object but got enum.");
		
		
		{
		    var field = clazz.getDeclaredField("health");
		    field.setAccessible(true);
		    var value = field.getInt(object);
		    accessor.health = (int)value;
		}
		
		
		return accessor;
	}

	public static PlayerAccessor[] accessArray(Object[] object) throws NoSuchFieldException, SecurityException, IllegalArgumentException, IllegalAccessException {		
		if (object == null) return null;
		
		var entries = new java.util.ArrayList<>();
		
		for (var entry : object) {
		    entries.add(PlayerAccessor.access(entry));
		}
		
		return entries.toArray(new PlayerAccessor[0]);
	}

	public static Object accessArrayNested(Object object) throws NoSuchFieldException, SecurityException, IllegalArgumentException, IllegalAccessException {		
		if (object == null) return null;
		
		if (!(object instanceof Object[]))
		    return object;
		
		var objArray = (Object[]) object;
		
		var entries = new java.util.ArrayList<>();
		
		for (var entry : objArray) {{
		    entries.add(accessArrayNested(entry));
		}}
		
		return entries.toArray();
	}

	public void clearInnerRefs() {		
		this.self = null;
	}

	private static void clearInnerRefsArray(Object obj) {		
		if (obj == null) return;
		if (obj.getClass().isArray()) {
		    var array = (Object[])obj;
		
		    for (var entry : array) {
		        clearInnerRefsArray(entry);
		    }
		} else {
		    try {
		        var method = obj.getClass().getMethod("clearInnerRefs");
		        method.invoke(obj);
		    } catch (Exception e) {
		        System.out.println("Error in clearRefsArray:");
		        e.printStackTrace();
		    }
		}
	}

	public void set_health(int value) {		
		try {
		    var clazz = this.self.getClass();
		    var field = clazz.getDeclaredField("health");
		    field.setAccessible(true);
		    field.set(this.self, value);
		
		    this.health = value;
		} catch (Exception e) {
		    System.out.println("Error setting field 'health':");
		    e.printStackTrace();
		}
	}
}"###);
    assert!(source.content.contains("var value = field.getInt(object);\n\t\t    accessor.health = (int)value;"));
}

#[test]
fn renamed_class_with_includes_end_to_end() {
    let source = file(compile_file("hero.ron", "", &hero(), &Ok(vec![kind(), item()])));
    assert_eq!(source.directory, "");
    assert_eq!(source.file_name, "HeroAccessor.java");
    assert_eq!(source.content, r###"package game.model;

import game.kinds.KindAccessor;
import game.items.ThingAccessor;

// Class autogenerated from hero.ron. DO NOT EDIT
// Original name: Player
public class HeroAccessor {
	private Object self;
	// Original name: a
	public int health;
	public boolean alive;
	public long id;
	public byte tag;
	public short level;
	public float speed;
	public double mass;
	public String title;
	public int[] scores;
	public KindAccessor kind;
	// Original name: b
	public ItemAccessor item;
	public ItemAccessor[] items;
	public PlayerAccessor[][] grid;
	public KindAccessor[] kinds;
	public PlayerAccessor friend;
	public OtherAccessor other;


	public HeroAccessor(Object self) {		
		this.self = self;
	}

	public static HeroAccessor access(Object object) throws NoSuchFieldException, SecurityException, IllegalArgumentException, IllegalAccessException {		
		if (object == null) return null;
		
		var accessor = new HeroAccessor(object);
		var clazz = object.getClass();
		if (clazz.isEnum()) throw new RuntimeException("Failed to access Hero: Expected object to be object but got enum.");
		
		
		{
		    var field = clazz.getDeclaredField("a");
		    field.setAccessible(true);
		    var value = field.getInt(object);
		    accessor.health = (int)value;
		}
		
		
		{
		    var field = clazz.getField("alive");
		    field.setAccessible(true);
		    var value = field.getBoolean(object);
		    accessor.alive = (boolean)value;
		}
		
		
		{
		    var field = clazz.getDeclaredField("id");
		    field.setAccessible(true);
		    var value = field.getLong(object);
		    accessor.id = (long)value;
		}
		
		
		{
		    var field = clazz.getDeclaredField("tag");
		    field.setAccessible(true);
		    var value = field.getByte(object);
		    accessor.tag = (byte)value;
		}
		
		
		{
		    var field = clazz.getDeclaredField("level");
		    field.setAccessible(true);
		    var value = field.getShort(object);
		    accessor.level = (short)value;
		}
		
		
		{
		    var field = clazz.getDeclaredField("speed");
		    field.setAccessible(true);
		    var value = field.getFloat(object);
		    accessor.speed = (float)value;
		}
		
		
		{
		    var field = clazz.getDeclaredField("mass");
		    field.setAccessible(true);
		    var value = field.getDouble(object);
		    accessor.mass = (double)value;
		}
		
		
		{
		    var field = clazz.getDeclaredField("title");
		    field.setAccessible(true);
		    var value = field.get(object);
		    accessor.title = (String)value;
		}
		
		
		{
		    var field = clazz.getDeclaredField("scores");
		    field.setAccessible(true);
		    var value = field.get(object);
		    accessor.scores = (int[])value;
		}
		
		
		{
		    var field = clazz.getDeclaredField("kind");
		    field.setAccessible(true);
		    var value = field.get(object);
		    accessor.kind = KindAccessor.access(value);
		}
		
		
		{
		    var field = clazz.getField("b");
		    field.setAccessible(true);
		    var value = field.get(object);
		    accessor.item = ItemAccessor.access(value);
		}
		
		
		{
		    var field = clazz.getDeclaredField("items");
		    field.setAccessible(true);
		    var value = field.get(object);
		    accessor.items = (ItemAccessor[])ItemAccessor.accessArray((Object[])value);
		}
		
		
		{
		    var field = clazz.getDeclaredField("grid");
		    field.setAccessible(true);
		    var value = field.get(object);
		    accessor.grid = (PlayerAccessor[][])PlayerAccessor.accessArrayNested(value);
		}
		
		
		{
		    var field = clazz.getDeclaredField("kinds");
		    field.setAccessible(true);
		    var value = field.get(object);
		    accessor.kinds = (KindAccessor[])KindAccessor.accessArray((Object[])value);
		}
		
		
		{
		    var field = clazz.getDeclaredField("friend");
		    field.setAccessible(true);
		    var value = field.get(object);
		    accessor.friend = PlayerAccessor.access(value);
		}
		
		
		{
		    var field = clazz.getDeclaredField("other");
		    field.setAccessible(true);
		    var value = field.get(object);
		    accessor.other = OtherAccessor.access(value);
		}
		
		
		return accessor;
	}

	public static HeroAccessor[] accessArray(Object[] object) throws NoSuchFieldException, SecurityException, IllegalArgumentException, IllegalAccessException {		
		if (object == null) return null;
		
		var entries = new java.util.ArrayList<>();
		
		for (var entry : object) {
		    entries.add(HeroAccessor.access(entry));
		}
		
		return entries.toArray(new HeroAccessor[0]);
	}

	public static Object accessArrayNested(Object object) throws NoSuchFieldException, SecurityException, IllegalArgumentException, IllegalAccessException {		
		if (object == null) return null;
		
		if (!(object instanceof Object[]))
		    return object;
		
		var objArray = (Object[]) object;
		
		var entries = new java.util.ArrayList<>();
		
		for (var entry : objArray) {{
		    entries.add(accessArrayNested(entry));
		}}
		
		return entries.toArray();
	}

	public void clearInnerRefs() {		
		this.self = null;
		
		
		if (this.item != null) this.item.clearInnerRefs();
		
		
		clearInnerRefsArray(this.items);
		
		
		clearInnerRefsArray(this.grid);
		
		
		if (this.friend != null) this.friend.clearInnerRefs();
		
		
		if (this.other != null) this.other.clearInnerRefs();
	}

	private static void clearInnerRefsArray(Object obj) {		
		if (obj == null) return;
		if (obj.getClass().isArray()) {
		    var array = (Object[])obj;
		
		    for (var entry : array) {
		        clearInnerRefsArray(entry);
		    }
		} else {
		    try {
		        var method = obj.getClass().getMethod("clearInnerRefs");
		        method.invoke(obj);
		    } catch (Exception e) {
		        System.out.println("Error in clearRefsArray:");
		        e.printStackTrace();
		    }
		}
	}

	public void set_health(int value) {		
		try {
		    var clazz = this.self.getClass();
		    var field = clazz.getDeclaredField("a");
		    field.setAccessible(true);
		    field.set(this.self, value);
		
		    this.health = value;
		} catch (Exception e) {
		    System.out.println("Error setting field 'health':");
		    e.printStackTrace();
		}
	}

	public void set_alive(boolean value) {		
		try {
		    var clazz = this.self.getClass();
		    var field = clazz.getField("alive");
		    field.setAccessible(true);
		    field.set(this.self, value);
		
		    this.alive = value;
		} catch (Exception e) {
		    System.out.println("Error setting field 'alive':");
		    e.printStackTrace();
		}
	}

	public void set_id(long value) {		
		try {
		    var clazz = this.self.getClass();
		    var field = clazz.getDeclaredField("id");
		    field.setAccessible(true);
		    field.set(this.self, value);
		
		    this.id = value;
		} catch (Exception e) {
		    System.out.println("Error setting field 'id':");
		    e.printStackTrace();
		}
	}

	public void set_tag(byte value) {		
		try {
		    var clazz = this.self.getClass();
		    var field = clazz.getDeclaredField("tag");
		    field.setAccessible(true);
		    field.set(this.self, value);
		
		    this.tag = value;
		} catch (Exception e) {
		    System.out.println("Error setting field 'tag':");
		    e.printStackTrace();
		}
	}

	public void set_level(short value) {		
		try {
		    var clazz = this.self.getClass();
		    var field = clazz.getDeclaredField("level");
		    field.setAccessible(true);
		    field.set(this.self, value);
		
		    this.level = value;
		} catch (Exception e) {
		    System.out.println("Error setting field 'level':");
		    e.printStackTrace();
		}
	}

	public void set_speed(float value) {		
		try {
		    var clazz = this.self.getClass();
		    var field = clazz.getDeclaredField("speed");
		    field.setAccessible(true);
		    field.set(this.self, value);
		
		    this.speed = value;
		} catch (Exception e) {
		    System.out.println("Error setting field 'speed':");
		    e.printStackTrace();
		}
	}

	public void set_mass(double value) {		
		try {
		    var clazz = this.self.getClass();
		    var field = clazz.getDeclaredField("mass");
		    field.setAccessible(true);
		    field.set(this.self, value);
		
		    this.mass = value;
		} catch (Exception e) {
		    System.out.println("Error setting field 'mass':");
		    e.printStackTrace();
		}
	}

	public void set_title(String value) {		
		try {
		    var clazz = this.self.getClass();
		    var field = clazz.getDeclaredField("title");
		    field.setAccessible(true);
		    field.set(this.self, value);
		
		    this.title = value;
		} catch (Exception e) {
		    System.out.println("Error setting field 'title':");
		    e.printStackTrace();
		}
	}

	public void set_scores(int[] value) {		
		try {
		    var clazz = this.self.getClass();
		    var field = clazz.getDeclaredField("scores");
		    field.setAccessible(true);
		    field.set(this.self, value);
		
		    this.scores = value;
		} catch (Exception e) {
		    System.out.println("Error setting field 'scores':");
		    e.printStackTrace();
		}
	}

	public void set_kind(KindAccessor value) {		
		try {
		    var clazz = this.self.getClass();
		    var field = clazz.getDeclaredField("kind");
		    field.setAccessible(true);
		    field.set(this.self, value);
		
		    this.kind = value;
		} catch (Exception e) {
		    System.out.println("Error setting field 'kind':");
		    e.printStackTrace();
		}
	}

	public void set_item(ItemAccessor value) {		
		try {
		    var clazz = this.self.getClass();
		    var field = clazz.getField("b");
		    field.setAccessible(true);
		    field.set(this.self, value);
		
		    this.item = value;
		} catch (Exception e) {
		    System.out.println("Error setting field 'item':");
		    e.printStackTrace();
		}
	}

	public void set_items(ItemAccessor[] value) {		
		try {
		    var clazz = this.self.getClass();
		    var field = clazz.getDeclaredField("items");
		    field.setAccessible(true);
		    field.set(this.self, value);
		
		    this.items = value;
		} catch (Exception e) {
		    System.out.println("Error setting field 'items':");
		    e.printStackTrace();
		}
	}

	public void set_grid(PlayerAccessor[][] value) {		
		try {
		    var clazz = this.self.getClass();
		    var field = clazz.getDeclaredField("grid");
		    field.setAccessible(true);
		    field.set(this.self, value);
		
		    this.grid = value;
		} catch (Exception e) {
		    System.out.println("Error setting field 'grid':");
		    e.printStackTrace();
		}
	}

	public void set_kinds(KindAccessor[] value) {		
		try {
		    var clazz = this.self.getClass();
		    var field = clazz.getDeclaredField("kinds");
		    field.setAccessible(true);
		    field.set(this.self, value);
		
		    this.kinds = value;
		} catch (Exception e) {
		    System.out.println("Error setting field 'kinds':");
		    e.printStackTrace();
		}
	}

	public void set_friend(PlayerAccessor value) {		
		try {
		    var clazz = this.self.getClass();
		    var field = clazz.getDeclaredField("friend");
		    field.setAccessible(true);
		    field.set(this.self, value);
		
		    this.friend = value;
		} catch (Exception e) {
		    System.out.println("Error setting field 'friend':");
		    e.printStackTrace();
		}
	}

	public void set_other(OtherAccessor value) {		
		try {
		    var clazz = this.self.getClass();
		    var field = clazz.getDeclaredField("other");
		    field.setAccessible(true);
		    field.set(this.self, value);
		
		    this.other = value;
		} catch (Exception e) {
		    System.out.println("Error setting field 'other':");
		    e.printStackTrace();
		}
	}
}"###);
}

#[test]
fn enum_end_to_end() {
    let source = file(compile_file("colour.ron", "out/kinds", &colour(), &Ok(vec![item()])));
    assert_eq!(source.directory, "out/kinds");
    assert_eq!(source.file_name, "ColourAccessor.java");
    assert_eq!(source.content, r###"package game.kinds;

import game.items.ThingAccessor;

// Enum autogenerated from colour.ron. DO NOT EDIT.
// Original name: Color
public enum ColourAccessor {
	RED,
	Green,
	BLUE;


	public static ColourAccessor access(Object object) throws SecurityException, IllegalArgumentException {		
		if (object == null) return null;
		
		var clazz = object.getClass();
		
		if (!clazz.isEnum()) throw new RuntimeException("Colour was supposed to be an enum but it is not!");
		
		var variant = ((Enum<?>) object).name();
		
		switch (variant) {
		
			case "RED": return ColourAccessor.RED;
			case "GREEN": return ColourAccessor.Green;
			case "BLUE": return ColourAccessor.BLUE;
		
		    default:
		        var variants = clazz.getEnumConstants();
		        System.out.println("Colour variants:");
		
		        for (var c : variants) {
		            var constant = (Enum<?>)c;
		            System.out.println("    - '" + constant.name() + "': '" + constant.toString() + "'");
		        }
		
		        throw new RuntimeException("ColourAccessor has an unrecognized variant: '" + variant + "'");
		}
	}

	public static ColourAccessor[] accessArray(Object[] object) throws NoSuchFieldException, SecurityException, IllegalArgumentException, IllegalAccessException {		
		if (object == null) return null;
		
		var entries = new java.util.ArrayList<>();
		
		for (var entry : object) {
		    entries.add(ColourAccessor.access(entry));
		}
		
		return entries.toArray(new ColourAccessor[0]);
	}

}"###);
}

#[test]
fn object_with_neither_fields_nor_variants_is_a_class() {
    let source = file(compile_file("empty.ron", "out", &plain(), &Ok(vec![])));
    assert_eq!(source.file_name, "EmptyAccessor.java");
    assert_eq!(source.content, r###"package p;

// Class autogenerated from empty.ron. DO NOT EDIT
// Original name: Empty
public class EmptyAccessor {
	private Object self;


	public EmptyAccessor(Object self) {		
		this.self = self;
	}

	public static EmptyAccessor access(Object object) throws NoSuchFieldException, SecurityException, IllegalArgumentException, IllegalAccessException {		
		if (object == null) return null;
		
		var accessor = new EmptyAccessor(object);
		var clazz = object.getClass();
		if (clazz.isEnum()) throw new RuntimeException("Failed to access Empty: Expected object to be object but got enum.");
		
		
		return accessor;
	}

	public static EmptyAccessor[] accessArray(Object[] object) throws NoSuchFieldException, SecurityException, IllegalArgumentException, IllegalAccessException {		
		if (object == null) return null;
		
		var entries = new java.util.ArrayList<>();
		
		for (var entry : object) {
		    entries.add(EmptyAccessor.access(entry));
		}
		
		return entries.toArray(new EmptyAccessor[0]);
	}

	public static Object accessArrayNested(Object object) throws NoSuchFieldException, SecurityException, IllegalArgumentException, IllegalAccessException {		
		if (object == null) return null;
		
		if (!(object instanceof Object[]))
		    return object;
		
		var objArray = (Object[]) object;
		
		var entries = new java.util.ArrayList<>();
		
		for (var entry : objArray) {{
		    entries.add(accessArrayNested(entry));
		}}
		
		return entries.toArray();
	}

	public void clearInnerRefs() {		
		this.self = null;
	}

	private static void clearInnerRefsArray(Object obj) {		
		if (obj == null) return;
		if (obj.getClass().isArray()) {
		    var array = (Object[])obj;
		
		    for (var entry : array) {
		        clearInnerRefsArray(entry);
		    }
		} else {
		    try {
		        var method = obj.getClass().getMethod("clearInnerRefs");
		        method.invoke(obj);
		    } catch (Exception e) {
		        System.out.println("Error in clearRefsArray:");
		        e.printStackTrace();
		    }
		}
	}
}"###);
}

#[test]
fn class_wrapper_fields_follow_the_schema() {
    let o = hero();
    let class = build_class("hero.ron", &o, &vec![kind(), item()]);
    assert_eq!(class.name, "HeroAccessor");
    assert_eq!(class.package, "game.model");
    assert!(!class.is_virtual);
    assert_eq!(class.fields.len(), o.fields.len() + 1);
    assert_eq!(class.fields[0].name, "self");
    assert_eq!(class.fields[0].java_type, "Object");
    assert_eq!(class.fields[0].comment, None);
    assert!(matches!(class.fields[0].visibility, Visibility::Private));
    for (i, field) in o.fields.iter().enumerate() {
        assert_eq!(class.fields[i + 1].name, field.display_name());
        assert_eq!(class.fields[i + 1].java_type, field.field_type.java_name(&o));
        assert!(matches!(class.fields[i + 1].visibility, Visibility::Public));
    }
    assert_eq!(class.fields[1].comment, Some("Original name: a".to_string()));
    assert_eq!(class.fields[2].comment, None);
    assert_eq!(class.includes, vec!["game.kinds.KindAccessor".to_string(), "game.items.ThingAccessor".to_string()]);
    let names: Vec<&str> = class.methods.iter().map(|m| m.name.as_str()).collect();
    assert_eq!(&names[..7], &["HeroAccessor", "access", "accessArray", "accessArrayNested", "clearInnerRefs", "clearInnerRefsArray", "set_health"]);
    assert_eq!(class.methods.len(), 6 + o.fields.len());
}

#[test]
fn enum_wrapper_variants_follow_the_schema() {
    let o = colour();
    let wrapper = build_enum("colour.ron", &o, &vec![]);
    assert_eq!(wrapper.name, "ColourAccessor");
    assert_eq!(wrapper.variants, vec!["RED".to_string(), "Green".to_string(), "BLUE".to_string()]);
    assert_eq!(wrapper.methods.len(), 2);
    assert_eq!(wrapper.methods[0].name, "access");
    assert_eq!(wrapper.methods[1].name, "accessArray");
    for variant in &o.variants {
        assert!(wrapper.methods[0].body.contains(&format!("\tcase \"{}\": return ColourAccessor.{};", variant.name, variant.display_name())));
    }
    assert_eq!(wrapper.comment, Some("Enum autogenerated from colour.ron. DO NOT EDIT.\nOriginal name: Color".to_string()));
}

#[test]
fn import_list_uses_each_package_and_display_name() {
    assert_eq!(import_list(&vec![]), Vec::<String>::new());
    assert_eq!(import_list(&vec![item(), kind()]), vec!["game.items.ThingAccessor".to_string(), "game.kinds.KindAccessor".to_string()]);
}

#[test]
fn ambiguous_schema_is_refused() {
    let result = compile_file("x.ron", "out", &ambiguous(), &Ok(vec![]));
    assert!(matches!(result, Err(SourceError::AmbiguousClassOrEnum)));
}

#[test]
fn ambiguity_is_found_before_a_failed_include() {
    let failed = Err(SourceError::IO("gone".to_string()));
    let result = compile_file("x.ron", "out", &ambiguous(), &failed);
    assert!(matches!(result, Err(SourceError::AmbiguousClassOrEnum)));
}

#[test]
fn failed_include_fails_the_file() {
    let failed = Err(SourceError::Deserialization("bad".to_string()));
    match compile_file("x.ron", "out", &player(), &failed) {
        Err(SourceError::Deserialization(reason)) => assert_eq!(reason, "bad"),
        _ => panic!("the error of the include is handed on"),
    }
    let failed = Err(SourceError::IO("gone".to_string()));
    match compile_file("x.ron", "out", &colour(), &failed) {
        Err(SourceError::IO(reason)) => assert_eq!(reason, "gone"),
        _ => panic!("the error of the include is handed on"),
    }
}

#[test]
fn compile_of_nothing_succeeds_with_nothing() {
    match compile(&vec![]) {
        Ok(files) => assert!(files.is_empty()),
        Err(_) => panic!("nothing can fail"),
    }
}

#[test]
fn compile_hands_out_every_source_in_order() {
    let mut second = entry("in/kinds/colour.ron", Ok(colour()));
    second.output = "out/kinds".to_string();
    second.includes = Ok(vec![item()]);
    let entries = vec![entry("in/player.ron", Ok(player())), second, entry("in/empty.ron", Ok(plain()))];
    match compile(&entries) {
        Ok(files) => {
            assert_eq!(files.len(), 3);
            assert_eq!(files[0].file_name, "PlayerAccessor.java");
            assert_eq!(files[0].directory, "out/dir");
            assert_eq!(files[0].content, file(compile_file("player.ron", "out/dir", &player(), &Ok(vec![]))).content);
            assert_eq!(files[1].file_name, "ColourAccessor.java");
            assert_eq!(files[1].directory, "out/kinds");
            assert_eq!(files[1].content, file(compile_file("colour.ron", "out/kinds", &colour(), &Ok(vec![item()]))).content);
            assert_eq!(files[2].file_name, "EmptyAccessor.java");
        },
        Err(_) => panic!("no entry fails"),
    }
}

#[test]
fn compile_reports_every_failure_and_no_source() {
    let mut broken = entry("in/hero.ron", Ok(hero()));
    broken.includes = Err(SourceError::IO("no kind.ron".to_string()));
    let entries = vec![
        entry("in/player.ron", Ok(player())),
        entry("in/bad.ron", Err(SourceError::Deserialization("1:1".to_string()))),
        entry("in/both.ron", Ok(ambiguous())),
        entry("in/colour.ron", Ok(colour())),
        entry("in/sub", Err(SourceError::IO("denied".to_string()))),
        broken,
    ];
    match compile(&entries) {
        Ok(_) => panic!("three entries fail"),
        Err(failed) => {
            assert_eq!(failed.len(), 4);
            assert_eq!(failed[0].0, "in/bad.ron");
            assert!(matches!(&failed[0].1, SourceError::Deserialization(r) if r == "1:1"));
            assert_eq!(failed[1].0, "in/both.ron");
            assert!(matches!(&failed[1].1, SourceError::AmbiguousClassOrEnum));
            assert_eq!(failed[2].0, "in/sub");
            assert!(matches!(&failed[2].1, SourceError::IO(r) if r == "denied"));
            assert_eq!(failed[3].0, "in/hero.ron");
            assert!(matches!(&failed[3].1, SourceError::IO(r) if r == "no kind.ron"));
        },
    }
}

#[test]
fn compile_with_one_ambiguous_schema_gives_no_output() {
    let entries = vec![entry("in/player.ron", Ok(player())), entry("in/both.ron", Ok(ambiguous()))];
    match compile(&entries) {
        Ok(_) => panic!("the ambiguous schema fails the run"),
        Err(failed) => {
            assert_eq!(failed.len(), 1);
            assert_eq!(failed[0].0, "in/both.ron");
            assert_eq!(failed[0].1.message(), SourceError::AmbiguousClassOrEnum.message());
        },
    }
}

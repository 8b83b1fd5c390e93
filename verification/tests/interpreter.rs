use gem::interpreter::{
    repl_run, EmObject, Indexable, Member, Runtime, RuntimeError, StackFrame, Value,
};
use gem::lexer;
use gem::number::{Number, Order};
use gem::parser;
use gem::parser::{ExprNode, Operator};

const FUEL: u64 = 100_000;

fn num(x: f32) -> Value {
    Value::Float(Number::from_bits(x.to_bits()))
}

fn text(s: &str) -> Value {
    Value::EmString(s.to_owned())
}

fn lit(x: f32) -> ExprNode {
    ExprNode::NumLiteral(Number::from_bits(x.to_bits()))
}

fn tree(source: &str) -> ExprNode {
    parser::parse(lexer::run(source).unwrap()).unwrap()
}

/// Evaluates a source text in a new runtime and gives the frame it leaves.
fn frame_after(source: &str) -> StackFrame {
    let mut runtime = Runtime::new();
    let mut frame = StackFrame::new();
    runtime.walk_tree(&tree(source), &mut frame, FUEL).unwrap();
    frame
}

/// The value of the last statement of a source text.
fn value_of(source: &str) -> Result<Value, RuntimeError> {
    let mut runtime = Runtime::new();
    let mut frame = StackFrame::new();
    let statements = match tree(source) {
        ExprNode::Block(v) => v,
        other => vec![other],
    };
    let mut last = Ok(Value::Null);
    for s in statements.iter() {
        last = runtime.walk_tree(s, &mut frame, FUEL);
        if last.is_err() {
            break;
        }
    }
    last
}

/// What a source text writes.
fn output_of(source: &str) -> String {
    let mut runtime = Runtime::new();
    let mut frame = StackFrame::new();
    runtime.walk_tree(&tree(source), &mut frame, FUEL).unwrap();
    runtime.console.output.concat()
}

#[test]
fn generate_literals() {
    let dummy_string = ExprNode::StrLiteral("Test".to_owned());
    let dummy_number = lit(69.0 as f32);

    let expected_string = Value::EmString("Test".to_owned());
    let expected_number = num(69.0);

    let mut r = Runtime::new();
    let mut stack = StackFrame::new();
    assert_eq!(r.walk_tree(&dummy_string, &mut stack, FUEL).unwrap(), expected_string);

    assert_eq!(r.walk_tree(&dummy_number, &mut stack, FUEL).unwrap(), expected_number);
}

#[test]
fn assign_vars() {
    let op = ExprNode::Operation(
        Operator::Equals,
        Box::new(ExprNode::Name("test".to_owned())),
        Box::new(ExprNode::StrLiteral("this is a test".to_owned())),
    );

    let expected = Value::EmString("this is a test".to_owned());

    let mut r = Runtime::new();
    let mut stack = StackFrame::new();
    r.walk_tree(&op, &mut stack, FUEL).expect("Unable to walk tree");
    assert_eq!(stack.get_var(&"test"), Some(&expected));
}

#[test]
fn looping() {
    let ty = String::from("while");
    let condition = ExprNode::Operation(
        Operator::Less,
        Box::new(ExprNode::Name("i".to_owned())),
        Box::new(lit(10 as f32)),
    );
    let block = ExprNode::Block(vec![ExprNode::Operation(
        Operator::Equals,
        Box::new(ExprNode::Name("i".to_owned())),
        Box::new(ExprNode::Operation(
            Operator::Add,
            Box::new(ExprNode::Name("i".to_owned())),
            Box::new(lit(1.0 as f32)),
        )),
    )]);
    let mut r = Runtime::new();
    let mut stack = StackFrame::new();
    stack.set_var(String::from("i"), num(0.0 as f32));
    r.do_loop(&ty, &condition, &block, &mut stack, FUEL)
        .expect("Error executing loop");

    assert_eq!(stack.get_var_copy("i"), num(10.0));

    let source = "result = 0;\nfor(i = 0; i < 10; i = i + 1){\n    result = result + 1;\n}\n";
    if let Ok(dummy) = parser::parse(lexer::run(source).unwrap()) {
        let mut runtime = Runtime::new();
        let mut frame = StackFrame::new();

        repl_run(dummy, &mut runtime, &mut frame).expect("Unable to perform run");

        return assert_eq!(num(10.0), frame.get_var_copy("result"));
    }

    assert!(false);
}

#[test]
fn if_elif_else() {
    let source = "res = [0, false];\nx = 5;\nif(x == 1){ res[1] = false; } elif(x == 5){ res[1] = true; } else { res[1] = false; }\n";
    if let Ok(dummy) = parser::parse(lexer::run(source).unwrap()) {
        let mut runtime = Runtime::new();
        let mut frame = StackFrame::new();

        match repl_run(dummy, &mut runtime, &mut frame) {
            Ok(_) => {}
            Err(e) => println!("Got this error running the if test: {:?}", e),
        }

        if let Value::EmArray(v) = frame.get_var_copy("res") {
            for val in v {
                match val {
                    Value::EmBool(b) => return assert!(b),
                    _ => {}
                }
            }
        }

        assert!(false);
    }
}

#[test]
fn while_counts_to_five() {
    let frame = frame_after("i = 0; while(i < 5){ i = i + 1; }");
    assert_eq!(frame.get_var_copy("i"), num(5.0));
}

#[test]
fn for_counts_to_ten() {
    let frame = frame_after("for(i = 0; i < 10; i = i + 1){ }");
    assert_eq!(frame.get_var_copy("i"), num(10.0));
}

#[test]
fn wrong_number_of_arguments() {
    assert_eq!(
        value_of("fn f() { } f(1);"),
        Err(RuntimeError::Arity { name: "f".to_owned(), expected: 0, actual: 1 })
    );
    assert_eq!(
        value_of("fn g(a, b) { } g(1);"),
        Err(RuntimeError::Arity { name: "g".to_owned(), expected: 2, actual: 1 })
    );
}

#[test]
fn assignment_into_an_array() {
    let frame = frame_after("a = [1,2,3]; a[1] = 9;");
    assert_eq!(frame.get_var_copy("a"), Value::EmArray(vec![num(1.0), num(9.0), num(3.0)]));
}

#[test]
fn assignment_into_a_nested_array() {
    let frame = frame_after("a = [[1, 2], [3, 4]]; a[1][0] = 7; b = a[1][0] + a[0][1];");
    assert_eq!(
        frame.get_var_copy("a"),
        Value::EmArray(vec![
            Value::EmArray(vec![num(1.0), num(2.0)]),
            Value::EmArray(vec![num(7.0), num(4.0)]),
        ])
    );
    assert_eq!(frame.get_var_copy("b"), num(9.0));
}

#[test]
fn elif_branch_is_taken() {
    let frame = frame_after("if(false){ } elif(true){ r = \"A\"; } else { r = \"B\"; }");
    assert_eq!(frame.get_var_copy("r"), text("A"));
    let frame = frame_after("if(false){ } elif(false){ r = \"A\"; } else { r = \"B\"; }");
    assert_eq!(frame.get_var_copy("r"), text("B"));
}

#[test]
fn arithmetic_gives_the_same_twice() {
    let node = tree("2 + 3 * 4;");
    let mut runtime = Runtime::new();
    let mut frame = StackFrame::new();
    let first = repl_run(tree("2 + 3 * 4;"), &mut runtime, &mut frame);
    let second = repl_run(node, &mut runtime, &mut frame);
    assert_eq!(first, second);
    assert_eq!(value_of("2 + 3 * 4;"), Ok(num(14.0)));
    assert_eq!(value_of("2 * 3 + 4;"), Ok(num(14.0)));
    assert_eq!(value_of("10 - 2 - 3;"), Ok(num(11.0)));
    assert_eq!(value_of("7 / 2;"), Ok(num(3.5)));
}

#[test]
fn unbound_name_is_null_and_unbound_call_is_an_error() {
    assert_eq!(value_of("x;"), Ok(Value::Null));
    assert_eq!(value_of("y = x;"), Ok(Value::Null));
    assert_eq!(value_of("x();"), Err(RuntimeError::Unresolved("x".to_owned())));
}

#[test]
fn functions_see_only_their_parameters() {
    let frame = frame_after("fn f(a) { b = a + 1; return outer; } outer = 5; r = f(1);");
    assert_eq!(frame.get_var_copy("r"), Value::Null);
    assert_eq!(frame.get_var_copy("b"), Value::Null);
    let frame = frame_after("fn twice(a) { return a * 2; } fn f(a) { return twice(a) + 1; } r = f(4);");
    assert_eq!(frame.get_var_copy("r"), num(9.0));
}

#[test]
fn return_ends_the_block_it_stands_in() {
    let frame = frame_after("fn f() { return 1; x = 2; } r = f();");
    assert_eq!(frame.get_var_copy("r"), num(1.0));
    let frame =
        frame_after("i = 0; while (i < 10) { i = i + 1; return i; } after = 1;");
    assert_eq!(frame.get_var_copy("i"), num(1.0));
    assert_eq!(frame.get_var_copy("after"), num(1.0));
}

#[test]
fn recursion() {
    let frame = frame_after(
        "fn fact(n) { r = 1; if (n > 1) { r = n * fact(n - 1); } return r; } x = fact(5);",
    );
    assert_eq!(frame.get_var_copy("x"), num(120.0));
}

#[test]
fn strings_are_joined_by_plus() {
    assert_eq!(value_of("\"a\" + 1;"), Ok(text("a1")));
    assert_eq!(value_of("\"n = \" + 2.5;"), Ok(text("n = 2.5")));
    assert_eq!(value_of("\"a\" + [1, \"b\", true];"), Ok(text("a[1, \"b\", true]")));
    assert_eq!(value_of("1 + \"a\";"), Err(RuntimeError::NotANumber));
    assert_eq!(value_of("\"a\" - 1;"), Err(RuntimeError::NotANumber));
}

#[test]
fn values_of_different_kinds_are_ordered_by_kind() {
    assert_eq!(value_of("x < 1;"), Ok(Value::EmBool(true)));
    assert_eq!(value_of("1 < \"a\";"), Ok(Value::EmBool(true)));
    assert_eq!(value_of("\"a\" < true;"), Ok(Value::EmBool(true)));
    assert_eq!(value_of("true < [1];"), Ok(Value::EmBool(true)));
    assert_eq!(value_of("[1] > 5;"), Ok(Value::EmBool(true)));
    assert_eq!(value_of("[1, 2] == [1, 2];"), Ok(Value::EmBool(true)));
    assert_eq!(value_of("[1, 2] < [1, 3];"), Ok(Value::EmBool(true)));
    assert_eq!(value_of("\"abc\" < \"abd\";"), Ok(Value::EmBool(true)));
    assert_eq!(value_of("\"abc\" != \"abc\";"), Ok(Value::EmBool(false)));
    assert_eq!(value_of("2 >= 2;"), Ok(Value::EmBool(true)));
    assert_eq!(value_of("2 <= 1;"), Ok(Value::EmBool(false)));
}

#[test]
fn indexing() {
    assert_eq!(value_of("a = [1, 2, 3]; a[2];"), Ok(num(3.0)));
    assert_eq!(value_of("a = [1, 2, 3]; a[1.9];"), Ok(num(2.0)));
    assert_eq!(value_of("a = [1, 2, 3]; a[3];"), Err(RuntimeError::OutOfBounds(3)));
    assert_eq!(value_of("a = 5; a[0];"), Err(RuntimeError::NotIndexable));
    assert_eq!(value_of("a = [1]; a[\"x\"];"), Err(RuntimeError::NotANumber));
    assert_eq!(value_of("a = [1]; a[4] = 2;"), Err(RuntimeError::OutOfBounds(4)));
    assert_eq!(value_of("a = 1; a[0] = 2;"), Err(RuntimeError::NotIndexable));
    assert_eq!(value_of("1 = 2;"), Err(RuntimeError::BadTarget));
}

#[test]
fn indexable_values() {
    let mut array = Value::EmArray(vec![num(1.0), num(2.0)]);
    assert_eq!(array.index(1), Ok(&num(2.0)));
    assert_eq!(array.index(2), Err(RuntimeError::OutOfBounds(2)));
    assert_eq!(num(1.0).index(0), Err(RuntimeError::NotIndexable));
    *array.index_mut(0).unwrap() = text("x");
    assert_eq!(array, Value::EmArray(vec![text("x"), num(2.0)]));
}

#[test]
fn native_functions_write_and_read() {
    assert_eq!(output_of("print(\"a\"); println(1 + 2); print([1, \"b\"]);"), "a3\n[1, \"b\"]");
    assert_eq!(output_of("print \"hello world\";"), "hello world");
    assert_eq!(output_of("fn f(a) { } print(f);"), "null");
    assert_eq!(output_of("print(x);"), "null");

    let mut runtime = Runtime::new();
    let mut frame = StackFrame::new();
    runtime.console.feed("first line\nxy");
    runtime
        .walk_tree(
            &tree("a = readln(\"? \"); b = read(); c = read(); d = read(); e = readln();"),
            &mut frame,
            FUEL,
        )
        .unwrap();
    assert_eq!(frame.get_var_copy("a"), text("first line"));
    assert_eq!(frame.get_var_copy("b"), text("x"));
    assert_eq!(frame.get_var_copy("c"), text("y"));
    assert_eq!(frame.get_var_copy("d"), Value::Null);
    assert_eq!(frame.get_var_copy("e"), Value::Null);
    assert!(runtime.console.starved);
    assert_eq!(runtime.console.output, vec!["? ".to_owned()]);
}

#[test]
fn number_converts() {
    assert_eq!(value_of("number(\"12.5\");"), Ok(num(12.5)));
    assert_eq!(value_of("number(\"abc\");"), Ok(Value::Null));
    assert_eq!(value_of("number(true) + number(false);"), Ok(num(1.0)));
    assert_eq!(value_of("number(3);"), Ok(num(3.0)));
    assert_eq!(value_of("number([1]);"), Ok(Value::Null));
}

#[test]
fn native_functions_come_before_definitions() {
    assert_eq!(output_of("fn print(a) { return 1; } print(\"x\");"), "x");
}

#[test]
fn classes_objects_and_methods() {
    let source = "class Point {\n  fn get(self) { return self.x; }\n  fn plus(self, n) { return n + self.x; }\n}\n";
    let mut class = match tree(source) {
        ExprNode::Block(mut v) => v.remove(0),
        other => other,
    };
    // The constructor assigns to a member: `self.x = x`, with the dot grouped first.
    let init = ExprNode::Func(
        "~init".to_owned(),
        vec!["self".to_owned(), "x".to_owned()],
        Box::new(ExprNode::Block(vec![ExprNode::Operation(
            Operator::Equals,
            Box::new(ExprNode::Operation(
                Operator::Dot,
                Box::new(ExprNode::Name("self".to_owned())),
                Box::new(ExprNode::Name("x".to_owned())),
            )),
            Box::new(ExprNode::Name("x".to_owned())),
        )])),
    );
    if let ExprNode::Class(_, body) = &mut class {
        if let ExprNode::Block(v) = &mut **body {
            v.insert(0, init);
        }
    }
    let mut runtime = Runtime::new();
    let mut frame = StackFrame::new();
    runtime.walk_tree(&class, &mut frame, FUEL).unwrap();
    let p = runtime.walk_tree(&ExprNode::New("Point".to_owned(), vec![lit(4.0)]), &mut frame, FUEL);
    let object = p.unwrap();
    frame.set_var("p".to_owned(), object);
    let get = ExprNode::Operation(
        Operator::Dot,
        Box::new(ExprNode::Name("p".to_owned())),
        Box::new(ExprNode::Call("get".to_owned(), vec![])),
    );
    assert_eq!(runtime.walk_tree(&get, &mut frame, FUEL), Ok(num(4.0)));
    let plus = ExprNode::Operation(
        Operator::Dot,
        Box::new(ExprNode::Name("p".to_owned())),
        Box::new(ExprNode::Call("plus".to_owned(), vec![lit(3.0)])),
    );
    assert_eq!(runtime.walk_tree(&plus, &mut frame, FUEL), Ok(num(7.0)));
    let member = ExprNode::Operation(
        Operator::Dot,
        Box::new(ExprNode::Name("p".to_owned())),
        Box::new(ExprNode::Name("x".to_owned())),
    );
    assert_eq!(runtime.walk_tree(&member, &mut frame, FUEL), Ok(num(4.0)));
    let missing = ExprNode::Operation(
        Operator::Dot,
        Box::new(ExprNode::Name("p".to_owned())),
        Box::new(ExprNode::Name("y".to_owned())),
    );
    assert_eq!(
        runtime.walk_tree(&missing, &mut frame, FUEL),
        Err(RuntimeError::NoSuchMember("y".to_owned()))
    );
    let wrong = ExprNode::Operation(
        Operator::Dot,
        Box::new(ExprNode::Name("p".to_owned())),
        Box::new(ExprNode::Call("plus".to_owned(), vec![])),
    );
    assert_eq!(
        runtime.walk_tree(&wrong, &mut frame, FUEL),
        Err(RuntimeError::Arity { name: "plus".to_owned(), expected: 1, actual: 0 })
    );
    assert_eq!(
        runtime.walk_tree(&ExprNode::New("Nothing".to_owned(), vec![]), &mut frame, FUEL),
        Err(RuntimeError::NotAClass("Nothing".to_owned()))
    );
    let on_number = ExprNode::Operation(
        Operator::Dot,
        Box::new(lit(1.0)),
        Box::new(ExprNode::Name("x".to_owned())),
    );
    assert_eq!(runtime.walk_tree(&on_number, &mut frame, FUEL), Err(RuntimeError::NotAnObject));
}

#[test]
fn objects_are_shown_by_their_display_member() {
    let source = "class Tag { fn ~display(self) { return \"<tag>\"; } } class Plain { }";
    let mut runtime = Runtime::new();
    let mut frame = StackFrame::new();
    runtime.walk_tree(&tree(source), &mut frame, FUEL).unwrap();
    assert_eq!(
        repl_run(ExprNode::New("Tag".to_owned(), vec![]), &mut runtime, &mut frame),
        Ok("<tag>".to_owned())
    );
    assert_eq!(
        repl_run(ExprNode::New("Plain".to_owned(), vec![]), &mut runtime, &mut frame),
        Ok("{~name: \"Plain\"}".to_owned())
    );
}

#[test]
fn a_loop_without_end_runs_out_of_budget() {
    let mut runtime = Runtime::new();
    let mut frame = StackFrame::new();
    assert_eq!(
        runtime.walk_tree(&tree("while (true) { }"), &mut frame, 1000),
        Err(RuntimeError::Exhausted)
    );
    assert_eq!(
        runtime.walk_tree(&tree("fn f() { f(); } f();"), &mut frame, 1000),
        Err(RuntimeError::Exhausted)
    );
}

#[test]
fn repl_keeps_its_state() {
    let mut runtime = Runtime::new();
    let mut frame = StackFrame::new();
    assert_eq!(repl_run(tree("fn inc(a) { return a + 1; }"), &mut runtime, &mut frame), Ok("null".to_owned()));
    assert_eq!(repl_run(tree("x = 41;"), &mut runtime, &mut frame), Ok("null".to_owned()));
    assert!(repl_run(tree("nothing();"), &mut runtime, &mut frame).is_err());
    assert_eq!(frame.get_var_copy("x"), num(41.0));
    assert_eq!(
        runtime.walk_tree(&ExprNode::Call("inc".to_owned(), vec![ExprNode::Name("x".to_owned())]), &mut frame, FUEL),
        Ok(num(42.0))
    );
}

#[test]
fn programs_start_at_main() {
    let mut runtime = Runtime::new();
    let mut frame = StackFrame::new();
    let r = gem::run(
        "fn main(args) { println(args[1]); return args[0]; }",
        &vec!["a".to_owned(), "b".to_owned()],
        &mut runtime,
        &mut frame,
    );
    assert_eq!(r, Ok(text("a")));
    assert_eq!(runtime.console.output, vec!["b\n".to_owned()]);

    let mut runtime = Runtime::new();
    let mut frame = StackFrame::new();
    assert_eq!(gem::run("fn main() { return 3; }", &vec![], &mut runtime, &mut frame), Ok(num(3.0)));
    let mut runtime = Runtime::new();
    let mut frame = StackFrame::new();
    assert_eq!(
        gem::run("x = 1;", &vec![], &mut runtime, &mut frame),
        Err(gem::Failure::Runtime(RuntimeError::Unresolved("main".to_owned())))
    );
    assert!(matches!(
        gem::run("x = 1.2.3;", &vec![], &mut runtime, &mut frame),
        Err(gem::Failure::Lex(_))
    ));
    assert!(matches!(
        gem::run("while x { }", &vec![], &mut runtime, &mut frame),
        Err(gem::Failure::Parse(_))
    ));
}

#[test]
fn frames_bind_and_unbind() {
    let mut frame = StackFrame::new();
    frame.set_var("a".to_owned(), num(1.0));
    frame.set_var("b".to_owned(), num(2.0));
    frame.set_var("a".to_owned(), num(3.0));
    assert_eq!(frame.get_var("a"), Some(&num(3.0)));
    assert_eq!(frame.get_var("c"), None);
    frame.free_var("a");
    assert_eq!(frame.get_var_copy("a"), Value::Null);
    assert_eq!(frame.get_var_copy("b"), num(2.0));
    frame.set_var("v".to_owned(), Value::EmArray(vec![num(0.0)]));
    assert_eq!(frame.update_array_index("v", &num(0.0), text("x")), Ok(()));
    assert_eq!(frame.update_array_index("v", &text("0"), text("x")), Err(RuntimeError::NotANumber));
    assert_eq!(frame.get_var_copy("v"), Value::EmArray(vec![text("x")]));
}

#[test]
fn functions_and_members_are_shown() {
    let f = Value::Function(
        "f".to_owned(),
        vec!["a".to_owned(), "b".to_owned()],
        ExprNode::Block(vec![]),
    );
    assert_eq!(gem::interpreter::render(&f, FUEL), "f(a, b)");
    assert_eq!(gem::interpreter::render(&Value::Name("n".to_owned()), FUEL), "n");
    assert_eq!(gem::interpreter::render(&Value::EmArray(vec![]), FUEL), "[]");
    assert_eq!(gem::interpreter::render(&Value::EmBool(false), FUEL), "false");
}

#[test]
fn version_is_stated() {
    assert_eq!(gem::version(), "0.1.0");
}

#[test]
fn a_sign_at_the_beginning_counts_from_zero() {
    assert_eq!(value_of("x = -5;"), Ok(num(-5.0)));
    assert_eq!(value_of("-5 + 3;"), Ok(num(-8.0)));
    assert_eq!(value_of("3 * -2;"), Ok(num(-6.0)));
    assert_eq!(value_of("* 2;"), Err(RuntimeError::NotANumber));
}

#[test]
fn the_quote_word_is_shown_as_a_quote() {
    assert_eq!(output_of("print(\"say esc_QUOTEhiesc_QUOTE\");"), "say \"hi\"");
    assert_eq!(output_of("print([\"esc_QUOTE\"]);"), "[\"\"\"]");
    assert_eq!(value_of("\"a\" + \"esc_QUOTE\";"), Ok(text("a\"")));
    assert_eq!(value_of("\"esc_QUOTE\";"), Ok(text("esc_QUOTE")));
}

#[test]
fn every_runtime_error_can_be_met() {
    assert_eq!(
        value_of("class A { } A();"),
        Err(RuntimeError::NotCallable("A".to_owned()))
    );
    assert_eq!(value_of("class A { x = 1; }"), Err(RuntimeError::BadClassBody));
    assert_eq!(value_of("class A { } a = new A(); a . 5;"), Err(RuntimeError::BadMember));
    assert_eq!(
        value_of("class A { } a = new A(); a.f();"),
        Err(RuntimeError::NotCallable("f".to_owned()))
    );
    assert_eq!(value_of("fn f() { } new f();"), Err(RuntimeError::NotAClass("f".to_owned())));
}

#[test]
fn errors_have_messages() {
    assert_eq!(
        RuntimeError::Arity { name: "f".to_owned(), expected: 0, actual: 12 }.message(),
        "Expected 0 arguments for f, got 12"
    );
    assert_eq!(RuntimeError::OutOfBounds(305).message(), "Index 305 out of bounds");
    assert_eq!(
        RuntimeError::Unresolved("main".to_owned()).message(),
        "Couldn't find identifier main"
    );
    assert_eq!(
        gem::parse("while x { }").unwrap_err().message(),
        "Expected Symbol: (, found Identifier: x"
    );
    assert_eq!(gem::parse("f(1").unwrap_err().message(), "Expected Symbol: ), found nothing");
    assert_eq!(gem::parse("x = 1.5.2").unwrap_err().message(), "Malformed number: 1.5.2");
    assert_eq!(gem::parse("elif").unwrap_err().message(), "Unknown keyword elif");
}

#[test]
fn objects_are_equal_whatever_the_order_of_their_members() {
    let member = |n: &str, v: Value| Member { name: n.to_owned(), value: v };
    let a = Value::Object(EmObject { members: vec![member("x", num(1.0)), member("y", text("t"))] });
    let b = Value::Object(EmObject { members: vec![member("y", text("t")), member("x", num(1.0))] });
    let c = Value::Object(EmObject { members: vec![member("y", text("t")), member("x", num(2.0))] });
    let d = Value::Object(EmObject { members: vec![member("y", text("t"))] });
    assert_eq!(a.compare(&b), Order::Equal);
    assert_eq!(a.compare(&c), Order::Unordered);
    assert_eq!(a.compare(&d), Order::Greater);
    assert_eq!(d.compare(&a), Order::Less);
    assert!(a.alike(&b));
    assert!(!a.same(&b));

    let mut o = EmObject::new();
    o.set_prop("x".to_owned(), num(1.0));
    o.set_prop("x".to_owned(), num(2.0));
    assert_eq!(o.get_prop("x"), Some(&num(2.0)));
    assert_eq!(o.get_prop("y"), None);
    assert_eq!(o.members.len(), 1);
}

#[test]
fn a_for_loop_without_declaration() {
    let frame = frame_after("i = 3; n = 0; for (; i < 6; i++) { n = n + i; }");
    assert_eq!(frame.get_var_copy("n"), num(12.0));
    assert_eq!(frame.get_var_copy("i"), num(6.0));
}

#[test]
fn objects_from_source_text() {
    let frame = frame_after(
        "class Point {\n  fn ~init(self, x) { self.x = x; self.tag = \"p\"; }\n  fn get(self) { return self.x; }\n}\np = new Point(4);\nr = p.get();\np.x = 9;\nq = p.x;\nt = p.tag;\n",
    );
    assert_eq!(frame.get_var_copy("r"), num(4.0));
    assert_eq!(frame.get_var_copy("q"), num(9.0));
    assert_eq!(frame.get_var_copy("t"), text("p"));
    assert_eq!(value_of("x = 1; x.y = 2;"), Err(RuntimeError::NotAnObject));
    assert_eq!(value_of("class A { } a = new A(); a.1 = 2;"), Err(RuntimeError::BadMember));
    assert_eq!(value_of("f().y = 2;"), Err(RuntimeError::BadTarget));
}

#[test]
fn variables_can_be_changed_where_they_stand() {
    let mut frame = StackFrame::default();
    frame.set_var("a".to_owned(), num(1.0));
    if let Some(v) = frame.get_var_mut("a") {
        *v = text("changed");
    }
    assert_eq!(frame.get_var_copy("a"), text("changed"));
    assert!(frame.get_var_mut("b").is_none());
    assert_eq!(Runtime::default(), Runtime::new());
}

#[test]
fn the_registry_holds_the_native_functions() {
    let names: Vec<String> = gem::interpreter::get_functions().into_iter().map(|n| n.name).collect();
    assert_eq!(names, vec!["print", "println", "number", "readln", "read"]);
}

#[test]
fn copies_are_the_same_and_output_is_taken_once() {
    let mut runtime = Runtime::new();
    let mut frame = StackFrame::new();
    runtime
        .walk_tree(&tree("fn f() { } x = [1, \"a\"]; print(x);"), &mut frame, FUEL)
        .unwrap();
    assert_eq!(runtime.duplicate(), runtime);
    assert_eq!(frame.duplicate(), frame);
    assert_eq!(runtime.console.take_output(), vec!["[1, \"a\"]".to_owned()]);
    assert!(runtime.console.take_output().is_empty());
}

#[test]
fn a_program_with_an_error_at_the_top_does_not_reach_main() {
    let mut runtime = Runtime::new();
    let mut frame = StackFrame::new();
    let r = gem::interpreter::run(
        tree("fn main() { print(\"ran\"); } nothing();"),
        &vec![],
        &mut runtime,
        &mut frame,
    );
    assert_eq!(r, Err(RuntimeError::Unresolved("nothing".to_owned())));
    assert!(runtime.console.output.is_empty());
}
